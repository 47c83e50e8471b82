//! Heuristic checks that a payload is a raw Thumb binary meant to run from
//! RAM: no ELF header, few undefined instructions and enough distinct
//! mnemonics in its disassembly, and an entry point inside RAM. The
//! disassembly is the text that `objdump -D -b binary -M force-thumb`
//! prints; this module reads it line by line.

use vstd::prelude::*;
use crate::layout::{RAM_ADDR, RAM_SIZE};
use crate::metadata::u32_from_le;

verus! {

/// Most undefined instructions tolerated, in percent of all instructions.
pub const BINARY_UNDEFINED_INSTRUCTIONS_PERCENT: usize = 1;

/// Fewest distinct mnemonics a payload must use.
pub const BINARY_MIN_UNIQUE_INSTRUCTIONS: usize = 15;

/// Why a payload was rejected.
#[derive(Clone, Copy, Debug, PartialEq, Eq, Structural)]
pub enum BinaryFileError {
    /// The payload starts with the ELF magic bytes.
    HasELFHeader,
    /// More than one percent of the disassembled instructions are undefined.
    ManyUndefinedInstructions { total_instructions: usize, undefined_lines: usize },
    /// Too few distinct mnemonics.
    NotEnoughUniqueInstructions { unique_instructions: usize },
    /// The entry point (bytes 4..8) lies outside RAM.
    UnexpectedInterruptVectorTable { entrypoint_address: u32 },
}

pub open spec fn is_space(b: u8) -> bool {
    b == 0x20 || b == 0x09 || b == 0x0A || b == 0x0B || b == 0x0C || b == 0x0D
}

/// A lower-case hexadecimal digit.
pub open spec fn is_hex(b: u8) -> bool {
    (0x30 <= b && b <= 0x39) || (0x61 <= b && b <= 0x66)
}

/// First index at or after `i` whose byte is not white space.
pub open spec fn skip_space(s: Seq<u8>, i: int) -> int
    decreases s.len() - i,
{
    if i < 0 || i >= s.len() || !is_space(s[i]) {
        i
    } else {
        skip_space(s, i + 1)
    }
}

/// First index at or after `i` whose byte is not a hexadecimal digit.
pub open spec fn skip_hex(s: Seq<u8>, i: int) -> int
    decreases s.len() - i,
{
    if i < 0 || i >= s.len() || !is_hex(s[i]) {
        i
    } else {
        skip_hex(s, i + 1)
    }
}

/// First index at or after `i` whose byte is neither a hexadecimal digit
/// nor a space: the end of an encoding made of several hex groups.
pub open spec fn skip_encoding(s: Seq<u8>, i: int) -> int
    decreases s.len() - i,
{
    if i < 0 || i >= s.len() || !(is_hex(s[i]) || s[i] == 0x20) {
        i
    } else {
        skip_encoding(s, i + 1)
    }
}

/// `end` moved back over the spaces that precede it, but not before `from`.
pub open spec fn trim_spaces(s: Seq<u8>, from: int, end: int) -> int
    decreases end - from,
{
    if end <= from || end > s.len() || s[end - 1] != 0x20 {
        end
    } else {
        trim_spaces(s, from, end - 1)
    }
}

/// First index at or after `i` whose byte is white space.
pub open spec fn skip_word(s: Seq<u8>, i: int) -> int
    decreases s.len() - i,
{
    if i < 0 || i >= s.len() || is_space(s[i]) {
        i
    } else {
        skip_word(s, i + 1)
    }
}

/// The address, encoding and mnemonic of a disassembly line: optional
/// white space, hex digits, a colon, optional white space, the encoding
/// (hex groups separated by spaces), white space, then the mnemonic, the
/// word up to the next white space.
pub open spec fn objdump_fields(s: Seq<u8>) -> Option<(Seq<u8>, Seq<u8>, Seq<u8>)> {
    let a = skip_space(s, 0);
    let b = skip_hex(s, a);
    if b == a || b >= s.len() || s[b] != 0x3A {
        None
    } else {
        let c = skip_space(s, b + 1);
        let d = skip_hex(s, c);
        if d == c {
            None
        } else {
            let f = skip_encoding(s, d);
            let e = skip_space(s, f);
            if e < s.len() && e > trim_spaces(s, c, f) {
                Some((s.subrange(a, b), s.subrange(c, trim_spaces(s, c, f)), s.subrange(e, skip_word(s, e))))
            } else {
                None
            }
        }
    }
}

fn skip_space_exec(s: &[u8], i: usize) -> (r: usize)
    requires
        i <= s@.len(),
    ensures
        r as int == skip_space(s@, i as int),
        i <= r <= s@.len(),
{
    let mut j = i;
    while j < s.len() && (s[j] == 0x20 || s[j] == 0x09 || s[j] == 0x0A || s[j] == 0x0B || s[j]
        == 0x0C || s[j] == 0x0D)
        invariant
            i <= j <= s@.len(),
            skip_space(s@, i as int) == skip_space(s@, j as int),
        decreases s@.len() - j,
    {
        j = j + 1;
    }
    j
}

fn skip_hex_exec(s: &[u8], i: usize) -> (r: usize)
    requires
        i <= s@.len(),
    ensures
        r as int == skip_hex(s@, i as int),
        i <= r <= s@.len(),
{
    let mut j = i;
    while j < s.len() && ((0x30 <= s[j] && s[j] <= 0x39) || (0x61 <= s[j] && s[j] <= 0x66))
        invariant
            i <= j <= s@.len(),
            skip_hex(s@, i as int) == skip_hex(s@, j as int),
        decreases s@.len() - j,
    {
        j = j + 1;
    }
    j
}

fn skip_encoding_exec(s: &[u8], i: usize) -> (r: usize)
    requires
        i <= s@.len(),
    ensures
        r as int == skip_encoding(s@, i as int),
        i <= r <= s@.len(),
{
    let mut j = i;
    while j < s.len() && ((0x30 <= s[j] && s[j] <= 0x39) || (0x61 <= s[j] && s[j] <= 0x66) || s[j]
        == 0x20)
        invariant
            i <= j <= s@.len(),
            skip_encoding(s@, i as int) == skip_encoding(s@, j as int),
        decreases s@.len() - j,
    {
        j = j + 1;
    }
    j
}

fn trim_spaces_exec(s: &[u8], from: usize, end: usize) -> (r: usize)
    requires
        from <= end <= s@.len(),
    ensures
        r as int == trim_spaces(s@, from as int, end as int),
        from <= r <= end,
{
    let mut k = end;
    while k > from && s[k - 1] == 0x20
        invariant
            from <= k <= end <= s@.len(),
            trim_spaces(s@, from as int, end as int) == trim_spaces(s@, from as int, k as int),
        decreases k,
    {
        k = k - 1;
    }
    k
}

fn skip_word_exec(s: &[u8], i: usize) -> (r: usize)
    requires
        i <= s@.len(),
    ensures
        r as int == skip_word(s@, i as int),
        i <= r <= s@.len(),
{
    let mut j = i;
    while j < s.len() && !(s[j] == 0x20 || s[j] == 0x09 || s[j] == 0x0A || s[j] == 0x0B || s[j]
        == 0x0C || s[j] == 0x0D)
        invariant
            i <= j <= s@.len(),
            skip_word(s@, i as int) == skip_word(s@, j as int),
        decreases s@.len() - j,
    {
        j = j + 1;
    }
    j
}

fn copy_range(s: &[u8], from: usize, to: usize) -> (r: Vec<u8>)
    requires
        from <= to <= s@.len(),
    ensures
        r@ == s@.subrange(from as int, to as int),
{
    let mut v: Vec<u8> = Vec::new();
    let mut k = from;
    while k < to
        invariant
            from <= k <= to <= s@.len(),
            v@ == s@.subrange(from as int, k as int),
        decreases to - k,
    {
        v.push(s[k]);
        proof {
            assert(v@ =~= s@.subrange(from as int, k + 1));
        }
        k = k + 1;
    }
    v
}

/// Split a disassembly line into address, encoding and mnemonic.
pub fn split_objdump_instruction_line(input: &[u8]) -> (r: Option<(Vec<u8>, Vec<u8>, Vec<u8>)>)
    ensures
        r is None <==> objdump_fields(input@) is None,
        r matches Some(t) ==> objdump_fields(input@) == Some((t.0@, t.1@, t.2@)),
{
    let a = skip_space_exec(input, 0);
    let b = skip_hex_exec(input, a);
    if b == a || b >= input.len() || input[b] != 0x3A {
        return None;
    }
    let c = skip_space_exec(input, b + 1);
    let d = skip_hex_exec(input, c);
    if d == c {
        return None;
    }
    let f = skip_encoding_exec(input, d);
    let t = trim_spaces_exec(input, c, f);
    let e = skip_space_exec(input, f);
    if e < input.len() && e > t {
        let w = skip_word_exec(input, e);
        Some((copy_range(input, a, b), copy_range(input, c, t), copy_range(input, e, w)))
    } else {
        None
    }
}

/// The marker objdump prints for an undefined instruction: `<UNDEFINED>`.
pub open spec fn undefined_marker() -> Seq<u8> {
    seq![0x3Cu8, 0x55, 0x4E, 0x44, 0x45, 0x46, 0x49, 0x4E, 0x45, 0x44, 0x3E]
}

/// `pattern` occurs in `s` starting at `i`.
pub open spec fn occurs_at(s: Seq<u8>, pattern: Seq<u8>, i: int) -> bool {
    0 <= i && i + pattern.len() <= s.len() && s.subrange(i, i + pattern.len()) == pattern
}

/// The line marks an undefined instruction.
pub open spec fn has_undefined_marker(s: Seq<u8>) -> bool {
    exists|i: int| occurs_at(s, undefined_marker(), i)
}

fn occurs_at_exec(s: &[u8], pattern: &Vec<u8>, i: usize) -> (r: bool)
    ensures
        r == occurs_at(s@, pattern@, i as int),
{
    if i > s.len() || pattern.len() > s.len() - i {
        return false;
    }
    let mut k: usize = 0;
    while k < pattern.len()
        invariant
            i + pattern@.len() <= s@.len() <= usize::MAX,
            k <= pattern@.len(),
            forall|m: int| 0 <= m < k ==> s@[i + m] == pattern@[m],
        decreases pattern@.len() - k,
    {
        if s[i + k] != pattern[k] {
            proof {
                assert(s@.subrange(i as int, i + pattern@.len())[k as int] != pattern@[k as int]);
            }
            return false;
        }
        k = k + 1;
    }
    proof {
        assert(s@.subrange(i as int, i + pattern@.len()) =~= pattern@);
    }
    true
}

fn contains_undefined_marker(s: &[u8]) -> (r: bool)
    ensures
        r == has_undefined_marker(s@),
{
    let marker: Vec<u8> = vec![0x3Cu8, 0x55, 0x4E, 0x44, 0x45, 0x46, 0x49, 0x4E, 0x45, 0x44, 0x3E];
    proof {
        assert(marker@ =~= undefined_marker());
    }
    let mut i: usize = 0;
    while i < s.len()
        invariant
            i <= s@.len(),
            marker@ == undefined_marker(),
            forall|j: int| 0 <= j < i ==> !occurs_at(s@, undefined_marker(), j),
        decreases s@.len() - i,
    {
        if occurs_at_exec(s, &marker, i) {
            return true;
        }
        i = i + 1;
    }
    proof {
        assert forall|j: int| !occurs_at(s@, undefined_marker(), j) by {
            if 0 <= j && j >= s@.len() {
                assert(undefined_marker().len() == 11);
            }
        }
    }
    false
}

/// Instruction counts of a disassembly.
pub struct InstructionStats {
    /// Every mnemonic seen, each once, in order of first appearance.
    pub mnemonics: Vec<Vec<u8>>,
    /// Lines that disassembled to a mnemonic.
    pub instruction_count: usize,
    /// Lines marked undefined.
    pub undefined_count: usize,
}

/// Abstract content of the statistics: undefined lines, instruction lines,
/// distinct mnemonics in order of first appearance.
pub type StatsModel = (nat, nat, Seq<Seq<u8>>);

/// Record one disassembly line.
pub open spec fn add_line(m: StatsModel, line: Seq<u8>) -> StatsModel {
    if has_undefined_marker(line) {
        (m.0 + 1, m.1, m.2)
    } else {
        match objdump_fields(line) {
            Some(f) => (m.0, m.1 + 1, if m.2.contains(f.2) {
                m.2
            } else {
                m.2.push(f.2)
            }),
            None => m,
        }
    }
}

/// Index of the first line feed at or after `i`, or the length.
pub open spec fn line_end(s: Seq<u8>, i: int) -> int
    decreases s.len() - i,
{
    if i < 0 || i >= s.len() || s[i] == 0x0A {
        i
    } else {
        line_end(s, i + 1)
    }
}

/// A line without its carriage return, if it ends with one.
pub open spec fn strip_cr(line: Seq<u8>) -> Seq<u8> {
    if line.len() > 0 && line.last() == 0x0D {
        line.drop_last()
    } else {
        line
    }
}

/// Record every line of `text` from index `start` on. Lines end at a line
/// feed or at the end of the text; a final line feed ends the last line.
pub open spec fn add_lines(text: Seq<u8>, start: int, m: StatsModel) -> StatsModel
    decreases text.len() - start,
{
    if start < 0 || start >= text.len() {
        m
    } else {
        let e = line_end(text, start);
        if e < start || e > text.len() {
            m
        } else {
            let next = add_line(m, strip_cr(text.subrange(start, e)));
            if e >= text.len() {
                next
            } else {
                add_lines(text, e + 1, next)
            }
        }
    }
}

proof fn lemma_line_end_bounds(s: Seq<u8>, i: int)
    requires
        0 <= i <= s.len(),
    ensures
        i <= line_end(s, i) <= s.len(),
    decreases s.len() - i,
{
    if i < s.len() && s[i] != 0x0A {
        lemma_line_end_bounds(s, i + 1);
    }
}

impl InstructionStats {
    /// Abstract content.
    pub open spec fn view(&self) -> StatsModel {
        (
            self.undefined_count as nat,
            self.instruction_count as nat,
            self.mnemonics@.map_values(|v: Vec<u8>| v@),
        )
    }

    pub open spec fn wf(&self) -> bool {
        &&& self@.2.no_duplicates()
        &&& self.undefined_count + self.instruction_count <= usize::MAX
    }

    /// No lines recorded.
    pub fn new() -> (r: InstructionStats)
        ensures
            r.wf(),
            r@ == (0nat, 0nat, Seq::<Seq<u8>>::empty()),
    {
        let r = InstructionStats { mnemonics: Vec::new(), instruction_count: 0, undefined_count: 0 };
        proof {
            assert(r@.2 =~= Seq::<Seq<u8>>::empty());
        }
        r
    }

    /// Every instruction line, undefined ones included.
    pub fn total_instructions(&self) -> (r: usize)
        requires
            self.wf(),
        ensures
            r == self@.0 + self@.1,
    {
        self.undefined_count + self.instruction_count
    }

    /// Number of distinct mnemonics.
    pub fn unique_instruction_count(&self) -> (r: usize)
        requires
            self.wf(),
        ensures
            r == self@.2.len(),
    {
        self.mnemonics.len()
    }

    fn find_mnemonic(&self, m: &Vec<u8>) -> (r: bool)
        ensures
            r == self@.2.contains(m@),
    {
        let mut i: usize = 0;
        while i < self.mnemonics.len()
            invariant
                i <= self.mnemonics@.len(),
                forall|j: int| 0 <= j < i ==> self@.2[j] != m@,
            decreases self.mnemonics@.len() - i,
        {
            if bytes_equal(&self.mnemonics[i], m) {
                proof {
                    assert(self@.2[i as int] == m@);
                }
                return true;
            }
            i = i + 1;
        }
        false
    }

    fn add_instruction(&mut self, m: Vec<u8>)
        requires
            old(self).wf(),
            old(self).undefined_count + old(self).instruction_count < usize::MAX,
        ensures
            final(self).wf(),
            final(self)@ == (old(self)@.0, old(self)@.1 + 1, if old(self)@.2.contains(m@) {
                old(self)@.2
            } else {
                old(self)@.2.push(m@)
            }),
    {
        let found = self.find_mnemonic(&m);
        self.instruction_count = self.instruction_count + 1;
        if !found {
            let ghost before = self@.2;
            self.mnemonics.push(m);
            proof {
                assert(self@.2 =~= before.push(m@));
            }
        }
    }

    fn add_undefined(&mut self)
        requires
            old(self).wf(),
            old(self).undefined_count + old(self).instruction_count < usize::MAX,
        ensures
            final(self).wf(),
            final(self)@ == (old(self)@.0 + 1, old(self)@.1, old(self)@.2),
    {
        self.undefined_count = self.undefined_count + 1;
    }

    /// Count the lines of an objdump disassembly: a line holding
    /// `<UNDEFINED>` is an undefined instruction; any other line that splits
    /// into address, encoding and mnemonic is an instruction with that
    /// mnemonic; other lines are ignored.
    pub fn from_disassembly(text: &[u8]) -> (r: InstructionStats)
        ensures
            r.wf(),
            r@ == add_lines(text@, 0, (0nat, 0nat, Seq::<Seq<u8>>::empty())),
            r@.0 + r@.1 <= text@.len(),
    {
        let mut stats = InstructionStats::new();
        let mut start: usize = 0;
        while start < text.len()
            invariant
                start <= text@.len(),
                stats.wf(),
                stats@.0 + stats@.1 <= start,
                add_lines(text@, 0, (0nat, 0nat, Seq::<Seq<u8>>::empty())) == add_lines(
                    text@,
                    start as int,
                    stats@,
                ),
            decreases text@.len() - start,
        {
            let mut e = start;
            while e < text.len() && text[e] != 0x0A
                invariant
                    start <= e <= text@.len(),
                    line_end(text@, start as int) == line_end(text@, e as int),
                decreases text@.len() - e,
            {
                e = e + 1;
            }
            let mut end = e;
            if end > start && text[end - 1] == 0x0D {
                end = end - 1;
            }
            let line = copy_range(text, start, end);
            let ghost before = stats@;
            proof {
                assert(line@ =~= strip_cr(text@.subrange(start as int, e as int)));
                lemma_line_end_bounds(text@, start as int);
                assert(add_lines(text@, start as int, before) == add_lines(
                    text@,
                    if e < text@.len() { e + 1 } else { e as int },
                    add_line(before, line@),
                ));
            }
            if contains_undefined_marker(line.as_slice()) {
                stats.add_undefined();
            } else {
                match split_objdump_instruction_line(line.as_slice()) {
                    Some(fields) => stats.add_instruction(fields.2),
                    None => {},
                }
            }
            assert(stats@ == add_line(before, line@));
            start = if e < text.len() {
                e + 1
            } else {
                e
            };
        }
        stats
    }
}

/// Compare two byte strings.
fn bytes_equal(a: &Vec<u8>, b: &Vec<u8>) -> (r: bool)
    ensures
        r == (a@ == b@),
{
    if a.len() != b.len() {
        return false;
    }
    let mut i: usize = 0;
    while i < a.len()
        invariant
            a@.len() == b@.len(),
            i <= a@.len(),
            forall|j: int| 0 <= j < i ==> a@[j] == b@[j],
        decreases a@.len() - i,
    {
        if a[i] != b[i] {
            return false;
        }
        i = i + 1;
    }
    proof {
        assert(a@ =~= b@);
    }
    true
}

/// The payload starts with the ELF magic `7F 45 4C 46`.
pub open spec fn has_elf_header(bytes: Seq<u8>) -> bool {
    bytes.len() >= 4 && bytes[0] == 0x7F && bytes[1] == 0x45 && bytes[2] == 0x4C && bytes[3] == 0x46
}

/// The verdict of the binary heuristics on a payload with the given
/// disassembly statistics.
pub open spec fn binary_check_spec(bytes: Seq<u8>, stats: StatsModel) -> Result<(), BinaryFileError> {
    let total = stats.0 + stats.1;
    if has_elf_header(bytes) {
        Err(BinaryFileError::HasELFHeader)
    } else if stats.0 * 100 > total * BINARY_UNDEFINED_INSTRUCTIONS_PERCENT {
        Err(
            BinaryFileError::ManyUndefinedInstructions {
                total_instructions: total as usize,
                undefined_lines: stats.0 as usize,
            },
        )
    } else if stats.2.len() < BINARY_MIN_UNIQUE_INSTRUCTIONS {
        Err(BinaryFileError::NotEnoughUniqueInstructions { unique_instructions: stats.2.len() as usize })
    } else {
        Ok(())
    }
}

/// Check a payload against the heuristics for a raw Thumb binary, given the
/// statistics of its disassembly: reject an ELF header, more than one
/// percent undefined instructions, or fewer than 15 distinct mnemonics.
pub fn is_likely_valid_binary_buf(bytes: &[u8], stats: &InstructionStats) -> (r: Result<(), BinaryFileError>)
    requires
        stats.wf(),
    ensures
        r == binary_check_spec(bytes@, stats@),
{
    if bytes.len() >= 4 && bytes[0] == 0x7F && bytes[1] == 0x45 && bytes[2] == 0x4C && bytes[3]
        == 0x46 {
        return Err(BinaryFileError::HasELFHeader);
    }
    let total = stats.total_instructions();
    let undefined = stats.undefined_count;
    if undefined > total / 100 {
        proof {
            assert(undefined * 100 > total) by (nonlinear_arith)
                requires
                    undefined > total / 100,
                    total >= 0,
            ;
        }
        return Err(
            BinaryFileError::ManyUndefinedInstructions {
                total_instructions: total,
                undefined_lines: undefined,
            },
        );
    }
    proof {
        assert(undefined * 100 <= total) by (nonlinear_arith)
            requires
                undefined <= total / 100,
                total >= 0,
        ;
    }
    let unique = stats.unique_instruction_count();
    if unique < BINARY_MIN_UNIQUE_INSTRUCTIONS {
        return Err(BinaryFileError::NotEnoughUniqueInstructions { unique_instructions: unique });
    }
    Ok(())
}

/// The entry point of an OS image: the second word of its vector table.
pub open spec fn entry_point(bytes: Seq<u8>) -> u32 {
    u32_from_le(bytes, 4)
}

/// Check that the entry point of an OS image (little-endian, bytes 4..8)
/// lies in RAM, where the bootloader will jump.
pub fn is_likely_valid_os_image_buf(bytes: &[u8]) -> (r: Result<(), BinaryFileError>)
    requires
        bytes@.len() >= 8,
    ensures
        r == (if RAM_ADDR <= entry_point(bytes@) < RAM_ADDR + RAM_SIZE {
            Ok(())
        } else {
            Err(
                BinaryFileError::UnexpectedInterruptVectorTable {
                    entrypoint_address: entry_point(bytes@),
                },
            )
        }),
{
    let entrypoint_address = (bytes[4] as u32) | (bytes[5] as u32) << 8 | (bytes[6] as u32) << 16
        | (bytes[7] as u32) << 24;
    if RAM_ADDR <= entrypoint_address && entrypoint_address < RAM_ADDR + RAM_SIZE {
        Ok(())
    } else {
        Err(BinaryFileError::UnexpectedInterruptVectorTable { entrypoint_address })
    }
}

/// A payload of zero bytes is rejected whenever its disassembly shows fewer
/// than the required number of distinct mnemonics.
pub proof fn lemma_zero_payload_rejected(n: nat, stats: StatsModel)
    requires
        stats.2.len() < BINARY_MIN_UNIQUE_INSTRUCTIONS,
    ensures
        binary_check_spec(Seq::new(n, |i: int| 0u8), stats) is Err,
{
}

} // verus!
