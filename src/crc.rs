//! CRC-32C (Castagnoli): reflected polynomial 0x82F63B78, initial register
//! all ones, final inversion, one byte at a time.

use vstd::prelude::*;

verus! {

/// The reflected Castagnoli polynomial.
pub const CRC32C_POLYNOMIAL: u32 = 0x82F6_3B78;

/// Register value before the first byte.
pub const CRC_INITIAL_VALUE: u32 = 0xFFFF_FFFF;

/// Mask applied to the register after the last byte.
pub const CRC_FINAL_XOR_VALUE: u32 = 0xFFFF_FFFF;

/// One shift of the register, feeding back the polynomial when a one leaves.
pub open spec fn crc_bit_step(c: u32) -> u32 {
    if c & 1 != 0 {
        (c >> 1) ^ CRC32C_POLYNOMIAL
    } else {
        c >> 1
    }
}

/// `n` shifts of the register.
pub open spec fn crc_bit_steps(c: u32, n: nat) -> u32
    decreases n,
{
    if n == 0 {
        c
    } else {
        crc_bit_step(crc_bit_steps(c, (n - 1) as nat))
    }
}

/// The register after absorbing one byte.
pub open spec fn crc_byte_step(c: u32, b: u8) -> u32 {
    crc_bit_steps(c ^ (b as u32), 8)
}

/// The register after absorbing every byte of `s`, first to last.
pub open spec fn crc_register(s: Seq<u8>) -> u32
    decreases s.len(),
{
    if s.len() == 0 {
        CRC_INITIAL_VALUE
    } else {
        crc_byte_step(crc_register(s.drop_last()), s.last())
    }
}

/// CRC-32C of a byte sequence.
pub open spec fn crc32c(s: Seq<u8>) -> u32 {
    crc_register(s) ^ CRC_FINAL_XOR_VALUE
}

fn bit_step(c: u32) -> (r: u32)
    ensures
        r == crc_bit_step(c),
{
    if c & 1 != 0 {
        (c >> 1) ^ CRC32C_POLYNOMIAL
    } else {
        c >> 1
    }
}

/// Calculate CRC-32C over a byte buffer. An empty buffer gives 0.
pub fn calc_crc32(message: &[u8]) -> (r: u32)
    ensures
        r == crc32c(message@),
        message@.len() == 0 ==> r == 0,
{
    let mut crc: u32 = CRC_INITIAL_VALUE;
    let mut i: usize = 0;
    while i < message.len()
        invariant
            i <= message@.len(),
            crc == crc_register(message@.subrange(0, i as int)),
        decreases message@.len() - i,
    {
        let start = crc ^ (message[i] as u32);
        crc = start;
        let mut j: u32 = 0;
        while j < 8
            invariant
                j <= 8,
                crc == crc_bit_steps(start, j as nat),
            decreases 8 - j,
        {
            crc = bit_step(crc);
            j = j + 1;
        }
        proof {
            let s = message@.subrange(0, i + 1);
            assert(s.drop_last() =~= message@.subrange(0, i as int));
            assert(s.last() == message@[i as int]);
        }
        i = i + 1;
    }
    proof {
        assert(message@.subrange(0, message@.len() as int) =~= message@);
        if message@.len() == 0 {
            assert(CRC_INITIAL_VALUE ^ CRC_FINAL_XOR_VALUE == 0) by (bit_vector);
        }
    }
    crc ^ CRC_FINAL_XOR_VALUE
}

/// One shift of the register loses no information: the bit shifted out
/// reappears as the top bit of the result.
pub proof fn lemma_bit_step_injective(x: u32, y: u32)
    requires
        crc_bit_step(x) == crc_bit_step(y),
    ensures
        x == y,
{
    assert(((if x & 1 != 0 { (x >> 1) ^ 0x82F6_3B78u32 } else { x >> 1 }) == (if y & 1 != 0 {
        (y >> 1) ^ 0x82F6_3B78u32
    } else {
        y >> 1
    })) ==> x == y) by (bit_vector);
}

/// Any number of shifts loses no information.
pub proof fn lemma_bit_steps_injective(x: u32, y: u32, n: nat)
    requires
        crc_bit_steps(x, n) == crc_bit_steps(y, n),
    ensures
        x == y,
    decreases n,
{
    if n > 0 {
        lemma_bit_step_injective(crc_bit_steps(x, (n - 1) as nat), crc_bit_steps(y, (n - 1) as nat));
        lemma_bit_steps_injective(x, y, (n - 1) as nat);
    }
}

/// Absorbing a byte is injective in the register and in the byte.
pub proof fn lemma_byte_step_injective(c1: u32, b1: u8, c2: u32, b2: u8)
    requires
        crc_byte_step(c1, b1) == crc_byte_step(c2, b2),
        c1 == c2 || b1 == b2,
    ensures
        c1 == c2 && b1 == b2,
{
    lemma_bit_steps_injective(c1 ^ (b1 as u32), c2 ^ (b2 as u32), 8);
    let x1 = c1 ^ (b1 as u32);
    let x2 = c2 ^ (b2 as u32);
    assert((x1 == c1 ^ (b1 as u32) && x2 == c2 ^ (b2 as u32) && x1 == x2 && (c1 == c2 || b1 == b2))
        ==> (c1 == c2 && b1 == b2)) by (bit_vector);
}

proof fn lemma_registers_diverge(s: Seq<u8>, t: Seq<u8>, k: int, n: int)
    requires
        s.len() == t.len(),
        0 <= k < n <= s.len(),
        s[k] != t[k],
        forall|i: int| 0 <= i < s.len() && i != k ==> s[i] == t[i],
    ensures
        crc_register(s.subrange(0, n)) != crc_register(t.subrange(0, n)),
    decreases n,
{
    let sn = s.subrange(0, n);
    let tn = t.subrange(0, n);
    assert(sn.drop_last() =~= s.subrange(0, n - 1));
    assert(tn.drop_last() =~= t.subrange(0, n - 1));
    if n == k + 1 {
        assert(s.subrange(0, k) =~= t.subrange(0, k));
        if crc_register(sn) == crc_register(tn) {
            lemma_byte_step_injective(
                crc_register(s.subrange(0, k)),
                s[k],
                crc_register(t.subrange(0, k)),
                t[k],
            );
        }
    } else {
        lemma_registers_diverge(s, t, k, n - 1);
        if crc_register(sn) == crc_register(tn) {
            lemma_byte_step_injective(
                crc_register(s.subrange(0, n - 1)),
                s[n - 1],
                crc_register(t.subrange(0, n - 1)),
                t[n - 1],
            );
        }
    }
}

/// Two sequences of equal length that differ in exactly one byte have
/// different checksums.
pub proof fn lemma_crc32c_detects_single_byte_change(s: Seq<u8>, t: Seq<u8>, k: int)
    requires
        s.len() == t.len(),
        0 <= k < s.len(),
        s[k] != t[k],
        forall|i: int| 0 <= i < s.len() && i != k ==> s[i] == t[i],
    ensures
        crc32c(s) != crc32c(t),
{
    lemma_registers_diverge(s, t, k, s.len() as int);
    assert(s.subrange(0, s.len() as int) =~= s);
    assert(t.subrange(0, t.len() as int) =~= t);
    let a = crc_register(s);
    let b = crc_register(t);
    assert(a != b ==> (a ^ 0xFFFF_FFFFu32) != (b ^ 0xFFFF_FFFFu32)) by (bit_vector);
}

} // verus!
