//! The 64-byte on-flash metadata block and its 16-byte per-image records:
//! little-endian wire layout, checksum field and validity predicate.

use vstd::prelude::*;
use crate::crc::{calc_crc32, crc32c, lemma_crc32c_detects_single_byte_change};
use crate::layout::{METADATA_SIZE, METADATA_WITHOUT_CRC_SIZE};

verus! {

/// Description of the payload stored in one slot.
#[derive(Clone, Copy, PartialEq, Eq, Structural, Debug)]
pub struct ImageMetadata {
    pub version: u32,
    /// CRC-32C over the first `length` bytes of the slot.
    pub crc: u32,
    pub boot_counter: u32,
    /// Length in bytes of the payload in the slot.
    pub length: u32,
}

impl Default for ImageMetadata {
    fn default() -> (r: ImageMetadata)
        ensures
            r == (ImageMetadata { version: 0, crc: 0, boot_counter: 0, length: 0 }),
    {
        ImageMetadata { version: 0, crc: 0, boot_counter: 0, length: 0 }
    }
}

/// One metadata block. Versions 0 and all-ones are what erased flash reads
/// as; the block is valid when `crc` matches its first 60 bytes.
#[derive(Clone, Copy, PartialEq, Eq, Debug)]
pub struct Metadata {
    pub version: u32,
    pub bootcounter: u32,
    /// Slot to boot when its payload checks out.
    pub preferred_image: u32,
    pub images: [ImageMetadata; 3],
    /// CRC-32C over every byte of the block before this field.
    pub crc: u32,
}

/// Little-endian bytes of a 32-bit value.
pub open spec fn u32_le(v: u32) -> Seq<u8> {
    seq![
        (v & 0xff) as u8,
        ((v >> 8) & 0xff) as u8,
        ((v >> 16) & 0xff) as u8,
        ((v >> 24) & 0xff) as u8,
    ]
}

/// The 32-bit value stored little-endian at `off` in `s`.
pub open spec fn u32_from_le(s: Seq<u8>, off: int) -> u32 {
    (s[off] as u32) | (s[off + 1] as u32) << 8 | (s[off + 2] as u32) << 16 | (s[off + 3] as u32)
        << 24
}

impl ImageMetadata {
    /// Wire form: version, crc, boot_counter, length.
    pub open spec fn spec_bytes(self) -> Seq<u8> {
        u32_le(self.version) + u32_le(self.crc) + u32_le(self.boot_counter) + u32_le(self.length)
    }
}

/// The record stored at `off` in `s`.
pub open spec fn image_metadata_from_bytes(s: Seq<u8>, off: int) -> ImageMetadata {
    ImageMetadata {
        version: u32_from_le(s, off),
        crc: u32_from_le(s, off + 4),
        boot_counter: u32_from_le(s, off + 8),
        length: u32_from_le(s, off + 12),
    }
}

/// The block stored at the start of `s`.
pub open spec fn metadata_from_bytes(s: Seq<u8>) -> Metadata {
    Metadata {
        version: u32_from_le(s, 0),
        bootcounter: u32_from_le(s, 4),
        preferred_image: u32_from_le(s, 8),
        images: [
            image_metadata_from_bytes(s, 12),
            image_metadata_from_bytes(s, 28),
            image_metadata_from_bytes(s, 44),
        ],
        crc: u32_from_le(s, 60),
    }
}

impl Metadata {
    /// The 60 bytes that the checksum covers.
    pub open spec fn prefix_bytes(self) -> Seq<u8> {
        u32_le(self.version) + u32_le(self.bootcounter) + u32_le(self.preferred_image)
            + self.images[0].spec_bytes() + self.images[1].spec_bytes()
            + self.images[2].spec_bytes()
    }

    /// The full 64-byte wire form.
    pub open spec fn spec_bytes(self) -> Seq<u8> {
        self.prefix_bytes() + u32_le(self.crc)
    }

    /// The checksum that the block should carry.
    pub open spec fn spec_crc(self) -> u32 {
        crc32c(self.prefix_bytes())
    }

    /// The block's checksum matches its contents.
    pub open spec fn spec_is_valid(self) -> bool {
        self.crc == self.spec_crc()
    }

    /// The same block with its checksum field replaced.
    pub open spec fn with_crc(self, crc: u32) -> Metadata {
        Metadata { crc, ..self }
    }

    fn encode_prefix(&self) -> (r: Vec<u8>)
        ensures
            r@ == self.prefix_bytes(),
    {
        let mut v: Vec<u8> = Vec::new();
        push_u32_le(&mut v, self.version);
        push_u32_le(&mut v, self.bootcounter);
        push_u32_le(&mut v, self.preferred_image);
        push_image(&mut v, &self.images[0]);
        push_image(&mut v, &self.images[1]);
        push_image(&mut v, &self.images[2]);
        proof {
            assert(v@ =~= self.prefix_bytes());
        }
        v
    }

    /// CRC-32C over the first 60 bytes of the block.
    pub fn calc_crc(&self) -> (r: u32)
        ensures
            r == self.spec_crc(),
    {
        let prefix = self.encode_prefix();
        calc_crc32(prefix.as_slice())
    }

    /// The stored checksum matches the block's contents.
    pub fn is_valid(&self) -> (r: bool)
        ensures
            r == self.spec_is_valid(),
    {
        self.crc == self.calc_crc()
    }

    /// Rewrite the checksum field so that the block is valid.
    pub fn set_crc(&mut self)
        ensures
            *final(self) == old(self).with_crc(old(self).spec_crc()),
            final(self).spec_is_valid(),
    {
        self.crc = self.calc_crc();
    }
}

fn push_u32_le(v: &mut Vec<u8>, x: u32)
    ensures
        final(v)@ == old(v)@ + u32_le(x),
{
    v.push((x & 0xff) as u8);
    v.push(((x >> 8) & 0xff) as u8);
    v.push(((x >> 16) & 0xff) as u8);
    v.push(((x >> 24) & 0xff) as u8);
    proof {
        assert(final(v)@ =~= old(v)@ + u32_le(x));
    }
}

fn push_image(v: &mut Vec<u8>, m: &ImageMetadata)
    ensures
        final(v)@ == old(v)@ + m.spec_bytes(),
{
    push_u32_le(v, m.version);
    push_u32_le(v, m.crc);
    push_u32_le(v, m.boot_counter);
    push_u32_le(v, m.length);
    proof {
        assert(final(v)@ =~= old(v)@ + m.spec_bytes());
    }
}

pub(crate) fn read_u32_le(s: &[u8], off: usize) -> (r: u32)
    requires
        off < 2 * METADATA_SIZE,
        off + 4 <= s@.len(),
    ensures
        r == u32_from_le(s@, off as int),
{
    (s[off] as u32) | (s[off + 1] as u32) << 8 | (s[off + 2] as u32) << 16 | (s[off + 3] as u32)
        << 24
}

fn read_image(s: &[u8], off: usize) -> (r: ImageMetadata)
    requires
        off <= METADATA_SIZE,
        off + 16 <= s@.len(),
    ensures
        r == image_metadata_from_bytes(s@, off as int),
{
    ImageMetadata {
        version: read_u32_le(s, off),
        crc: read_u32_le(s, off + 4),
        boot_counter: read_u32_le(s, off + 8),
        length: read_u32_le(s, off + 12),
    }
}

/// Encode a metadata block in its 64-byte little-endian wire form.
pub fn struct_to_bytes(data: &Metadata) -> (r: Vec<u8>)
    ensures
        r@ == data.spec_bytes(),
        r@.len() == METADATA_SIZE,
{
    let mut v = data.encode_prefix();
    push_u32_le(&mut v, data.crc);
    v
}

/// Decode a metadata block from the first 64 bytes of `data`.
pub fn bytes_to_struct(data: &[u8]) -> (r: Metadata)
    requires
        data@.len() >= METADATA_SIZE,
    ensures
        r == metadata_from_bytes(data@),
{
    let images = [read_image(data, 12), read_image(data, 28), read_image(data, 44)];
    Metadata {
        version: read_u32_le(data, 0),
        bootcounter: read_u32_le(data, 4),
        preferred_image: read_u32_le(data, 8),
        images,
        crc: read_u32_le(data, 60),
    }
}

proof fn lemma_u32_le_value(v: u32)
    ensures
        u32_from_le(u32_le(v), 0) == v,
{
    let s = u32_le(v);
    let b0 = (v & 0xff) as u8;
    let b1 = ((v >> 8) & 0xff) as u8;
    let b2 = ((v >> 16) & 0xff) as u8;
    let b3 = ((v >> 24) & 0xff) as u8;
    assert(s[0] == b0 && s[1] == b1 && s[2] == b2 && s[3] == b3);
    assert(b0 == (v & 0xff) as u8 && b1 == ((v >> 8) & 0xff) as u8 && b2 == ((v >> 16) & 0xff) as u8
        && b3 == ((v >> 24) & 0xff) as u8 ==> (b0 as u32) | (b1 as u32) << 8 | (b2 as u32) << 16 | (
    b3 as u32) << 24 == v) by (bit_vector);
}

proof fn lemma_u32_le_bytes(s: Seq<u8>, off: int)
    requires
        0 <= off,
        off + 4 <= s.len(),
    ensures
        u32_le(u32_from_le(s, off)) =~= s.subrange(off, off + 4),
{
    let b0 = s[off];
    let b1 = s[off + 1];
    let b2 = s[off + 2];
    let b3 = s[off + 3];
    let v = u32_from_le(s, off);
    assert(v == (b0 as u32) | (b1 as u32) << 8 | (b2 as u32) << 16 | (b3 as u32) << 24 ==> (v
        & 0xff) as u8 == b0 && ((v >> 8) & 0xff) as u8 == b1 && ((v >> 16) & 0xff) as u8 == b2 && ((v
        >> 24) & 0xff) as u8 == b3) by (bit_vector);
}

proof fn lemma_u32_le_at(s: Seq<u8>, off: int, v: u32)
    requires
        0 <= off,
        off + 4 <= s.len(),
        s.subrange(off, off + 4) == u32_le(v),
    ensures
        u32_from_le(s, off) == v,
{
    lemma_u32_le_value(v);
    let t = u32_le(v);
    assert(s[off] == t[0] && s[off + 1] == t[1] && s[off + 2] == t[2] && s[off + 3] == t[3]) by {
        assert(s.subrange(off, off + 4)[0] == s[off]);
        assert(s.subrange(off, off + 4)[1] == s[off + 1]);
        assert(s.subrange(off, off + 4)[2] == s[off + 2]);
        assert(s.subrange(off, off + 4)[3] == s[off + 3]);
    }
}

proof fn lemma_image_bytes(s: Seq<u8>, off: int)
    requires
        0 <= off,
        off + 16 <= s.len(),
    ensures
        image_metadata_from_bytes(s, off).spec_bytes() =~= s.subrange(off, off + 16),
{
    lemma_u32_le_bytes(s, off);
    lemma_u32_le_bytes(s, off + 4);
    lemma_u32_le_bytes(s, off + 8);
    lemma_u32_le_bytes(s, off + 12);
}

proof fn lemma_image_value(m: ImageMetadata, s: Seq<u8>, off: int)
    requires
        0 <= off,
        off + 16 <= s.len(),
        s.subrange(off, off + 16) == m.spec_bytes(),
    ensures
        image_metadata_from_bytes(s, off) == m,
{
    let t = s.subrange(off, off + 16);
    assert(s.subrange(off, off + 4) =~= t.subrange(0, 4));
    assert(s.subrange(off + 4, off + 8) =~= t.subrange(4, 8));
    assert(s.subrange(off + 8, off + 12) =~= t.subrange(8, 12));
    assert(s.subrange(off + 12, off + 16) =~= t.subrange(12, 16));
    assert(t.subrange(0, 4) =~= u32_le(m.version));
    assert(t.subrange(4, 8) =~= u32_le(m.crc));
    assert(t.subrange(8, 12) =~= u32_le(m.boot_counter));
    assert(t.subrange(12, 16) =~= u32_le(m.length));
    lemma_u32_le_at(s, off, m.version);
    lemma_u32_le_at(s, off + 4, m.crc);
    lemma_u32_le_at(s, off + 8, m.boot_counter);
    lemma_u32_le_at(s, off + 12, m.length);
}

/// Decoding the wire form of a block gives the block back.
pub proof fn lemma_decode_encode(m: Metadata)
    ensures
        metadata_from_bytes(m.spec_bytes()) == m,
        m.spec_bytes().len() == METADATA_SIZE,
        m.prefix_bytes() =~= m.spec_bytes().subrange(0, METADATA_WITHOUT_CRC_SIZE as int),
{
    let s = m.spec_bytes();
    assert(s.subrange(0, 4) =~= u32_le(m.version));
    assert(s.subrange(4, 8) =~= u32_le(m.bootcounter));
    assert(s.subrange(8, 12) =~= u32_le(m.preferred_image));
    assert(s.subrange(12, 28) =~= m.images[0].spec_bytes());
    assert(s.subrange(28, 44) =~= m.images[1].spec_bytes());
    assert(s.subrange(44, 60) =~= m.images[2].spec_bytes());
    assert(s.subrange(60, 64) =~= u32_le(m.crc));
    lemma_u32_le_at(s, 0, m.version);
    lemma_u32_le_at(s, 4, m.bootcounter);
    lemma_u32_le_at(s, 8, m.preferred_image);
    lemma_image_value(m.images[0], s, 12);
    lemma_image_value(m.images[1], s, 28);
    lemma_image_value(m.images[2], s, 44);
    lemma_u32_le_at(s, 60, m.crc);
    let d = metadata_from_bytes(s);
    assert(d.images =~= m.images);
}

/// Encoding the block decoded from 64 bytes gives those bytes back.
pub proof fn lemma_encode_decode(s: Seq<u8>)
    requires
        s.len() == METADATA_SIZE,
    ensures
        metadata_from_bytes(s).spec_bytes() =~= s,
        metadata_from_bytes(s).prefix_bytes() =~= s.subrange(0, METADATA_WITHOUT_CRC_SIZE as int),
{
    let m = metadata_from_bytes(s);
    lemma_u32_le_bytes(s, 0);
    lemma_u32_le_bytes(s, 4);
    lemma_u32_le_bytes(s, 8);
    lemma_image_bytes(s, 12);
    lemma_image_bytes(s, 28);
    lemma_image_bytes(s, 44);
    lemma_u32_le_bytes(s, 60);
    assert(m.prefix_bytes() =~= s.subrange(0, 60));
}

/// After `set_crc` a block is valid, whatever it held before.
pub proof fn lemma_set_crc_makes_valid(m: Metadata)
    ensures
        m.with_crc(m.spec_crc()).spec_is_valid(),
{
    assert(m.with_crc(m.spec_crc()).prefix_bytes() == m.prefix_bytes());
}

/// Changing any single byte of a valid block's wire form, outside the
/// checksum field, gives a block that is not valid.
pub proof fn lemma_single_byte_change_invalidates(m: Metadata, k: int, b: u8)
    requires
        m.spec_is_valid(),
        0 <= k < METADATA_WITHOUT_CRC_SIZE,
        m.spec_bytes()[k] != b,
    ensures
        !metadata_from_bytes(m.spec_bytes().update(k, b)).spec_is_valid(),
{
    let s = m.spec_bytes();
    lemma_decode_encode(m);
    let t = s.update(k, b);
    lemma_encode_decode(t);
    let m2 = metadata_from_bytes(t);
    let before = s.subrange(0, 60);
    let after = t.subrange(0, 60);
    assert(before[k] != after[k]);
    assert forall|i: int| 0 <= i < before.len() && i != k implies before[i] == after[i] by {}
    lemma_crc32c_detects_single_byte_change(before, after, k);
    assert(m2.crc == m.crc) by {
        assert(t.subrange(60, 64) =~= s.subrange(60, 64));
        lemma_u32_le_bytes(s, 60);
        lemma_u32_le_at(t, 60, m.crc);
        assert(s.subrange(60, 64) =~= u32_le(m.crc));
    }
}

} // verus!
