//! Host side: assembling the 2 MiB flash image from a bootloader and three
//! payloads, and reading one back to check its metadata and checksums.

use vstd::prelude::*;
use crate::binary::{
    binary_check_spec, entry_point, is_likely_valid_binary_buf, is_likely_valid_os_image_buf,
    BinaryFileError, InstructionStats, StatsModel,
};
use crate::boot::{metadata_at, slot_bytes, slot_ok};
use crate::crc::{calc_crc32, crc32c};
use crate::layout::{
    slot_addr, slot_addr_spec, FLASH_SIZE, METADATA_1_ADDR, METADATA_2_ADDR, METADATA_SIZE,
    RAM_ADDR, RAM_SIZE, SLOT_1_ADDR, SLOT_2_ADDR, SLOT_3_ADDR, SLOT_SIZE,
};
use crate::metadata::{
    bytes_to_struct, lemma_decode_encode, struct_to_bytes, ImageMetadata, Metadata,
};

verus! {

/// A write that does not fit its window or its buffer.
#[derive(Clone, Copy, Debug, PartialEq, Eq, Structural)]
pub struct OutOfBounds {
    pub from: u32,
    pub to: u32,
    pub src_len: usize,
    pub target_len: usize,
}

/// `s` with `src` written at `from` and zeros from its end up to `to`.
pub open spec fn placed(s: Seq<u8>, from: int, to: int, src: Seq<u8>) -> Seq<u8> {
    Seq::new(
        s.len(),
        |i: int|
            if from <= i < from + src.len() {
                src[i - from]
            } else if from + src.len() <= i < to {
                0u8
            } else {
                s[i]
            },
    )
}

/// Write `src` into `target` at `from` and zero the rest of the window up to
/// `to` (exclusive). Fails, leaving `target` as it was, when `src` does not
/// fit the window or the window does not fit `target`.
pub fn set_buf_from_to(target: &mut Vec<u8>, from: u32, to: u32, src: &Vec<u8>) -> (r: Result<
    (),
    OutOfBounds,
>)
    ensures
        r is Err <==> (from + src@.len() > to || to > old(target)@.len()),
        r is Err ==> final(target)@ == old(target)@ && r == Err::<(), OutOfBounds>(
            OutOfBounds { from, to, src_len: src@.len() as usize, target_len: old(target)@.len() as usize },
        ),
        r is Ok ==> final(target)@ == placed(old(target)@, from as int, to as int, src@),
{
    let from_u = from as usize;
    let to_u = to as usize;
    let src_len = src.len();
    let target_len = target.len();
    if to_u > target_len || from_u > to_u || src_len > to_u - from_u {
        return Err(OutOfBounds { from, to, src_len, target_len });
    }
    let ghost original = target@;
    let mut i: usize = 0;
    while i < src_len
        invariant
            src_len == src@.len(),
            from_u + src_len <= to_u <= target@.len(),
            target@.len() == original.len(),
            i <= src_len,
            forall|k: int| 0 <= k < target@.len() ==> target@[k] == (if from_u <= k < from_u + i {
                src@[k - from_u]
            } else {
                original[k]
            }),
        decreases src_len - i,
    {
        target.set(from_u + i, src[i]);
        i = i + 1;
    }
    let mut j: usize = from_u + src_len;
    while j < to_u
        invariant
            src_len == src@.len(),
            from_u + src_len <= j <= to_u <= target@.len(),
            target@.len() == original.len(),
            forall|k: int| 0 <= k < target@.len() ==> target@[k] == (if from_u <= k < from_u + src_len {
                src@[k - from_u]
            } else if from_u + src_len <= k < j {
                0u8
            } else {
                original[k]
            }),
        decreases to_u - j,
    {
        target.set(j, 0);
        j = j + 1;
    }
    proof {
        assert(target@ =~= placed(original, from as int, to as int, src@));
    }
    Ok(())
}

/// CRC-32C of a whole buffer.
pub fn calc_crc(data: &[u8]) -> (r: u32)
    ensures
        r == crc32c(data@),
{
    calc_crc32(data)
}

/// Why an image could not be assembled.
#[derive(Clone, Copy, Debug, PartialEq, Eq, Structural)]
pub enum GenerateError {
    /// The bootloader fails the binary heuristics.
    InvalidBootloader(BinaryFileError),
    /// The bootloader does not fit before the first metadata page.
    BootloaderTooLarge { len: usize },
    /// Payload `index` does not fit its slot.
    ImageTooLarge { index: usize, len: usize },
    /// Payload `index` is too short to hold a vector table entry point.
    ImageTooSmall { index: usize, len: usize },
    /// Payload `index` fails a heuristic.
    InvalidImage { index: usize, error: BinaryFileError },
}

/// The record the builder writes for a payload.
pub open spec fn image_record(image: Seq<u8>) -> ImageMetadata {
    ImageMetadata { version: 1, crc: crc32c(image), boot_counter: 0, length: image.len() as u32 }
}

/// The metadata block the builder writes for three payloads.
pub open spec fn built_metadata(i1: Seq<u8>, i2: Seq<u8>, i3: Seq<u8>) -> Metadata {
    let m = Metadata {
        version: 1,
        bootcounter: 0,
        preferred_image: 0,
        images: [image_record(i1), image_record(i2), image_record(i3)],
        crc: 0,
    };
    m.with_crc(m.spec_crc())
}

/// The error, if any, for payload `index`.
pub open spec fn image_error(index: usize, image: Seq<u8>, stats: (nat, nat, Seq<Seq<u8>>)) -> Option<
    GenerateError,
> {
    if image.len() > SLOT_SIZE {
        Some(GenerateError::ImageTooLarge { index, len: image.len() as usize })
    } else if binary_check_spec(image, stats) is Err {
        Some(
            GenerateError::InvalidImage {
                index,
                error: binary_check_spec(image, stats)->Err_0,
            },
        )
    } else if image.len() < 8 {
        Some(GenerateError::ImageTooSmall { index, len: image.len() as usize })
    } else if !(RAM_ADDR <= entry_point(image) < RAM_ADDR + RAM_SIZE) {
        Some(
            GenerateError::InvalidImage {
                index,
                error: BinaryFileError::UnexpectedInterruptVectorTable {
                    entrypoint_address: entry_point(image),
                },
            },
        )
    } else {
        None
    }
}

/// The error, if any, for a whole build; checks run bootloader first, then
/// each payload in slot order.
pub open spec fn generate_error(
    bootloader: Seq<u8>,
    i1: Seq<u8>,
    i2: Seq<u8>,
    i3: Seq<u8>,
    stats: [InstructionStats; 4],
) -> Option<GenerateError> {
    if binary_check_spec(bootloader, stats[0]@) is Err {
        Some(GenerateError::InvalidBootloader(binary_check_spec(bootloader, stats[0]@)->Err_0))
    } else if bootloader.len() > METADATA_1_ADDR {
        Some(GenerateError::BootloaderTooLarge { len: bootloader.len() as usize })
    } else if image_error(0, i1, stats[1]@) is Some {
        image_error(0, i1, stats[1]@)
    } else if image_error(1, i2, stats[2]@) is Some {
        image_error(1, i2, stats[2]@)
    } else {
        image_error(2, i3, stats[3]@)
    }
}

/// The flash image the builder produces: zeros, with the bootloader at 0,
/// each payload at the start of its slot and the metadata block at the
/// start of both metadata pages.
pub open spec fn built_image(bootloader: Seq<u8>, i1: Seq<u8>, i2: Seq<u8>, i3: Seq<u8>) -> Seq<u8> {
    let md = built_metadata(i1, i2, i3).spec_bytes();
    let s0 = Seq::new(FLASH_SIZE as nat, |i: int| 0u8);
    let s1 = placed(s0, 0, METADATA_1_ADDR as int, bootloader);
    let s2 = placed(s1, SLOT_1_ADDR as int, SLOT_1_ADDR + i1.len(), i1);
    let s3 = placed(s2, SLOT_2_ADDR as int, SLOT_2_ADDR + i2.len(), i2);
    let s4 = placed(s3, SLOT_3_ADDR as int, SLOT_3_ADDR + i3.len(), i3);
    let s5 = placed(s4, METADATA_1_ADDR as int, METADATA_2_ADDR as int, md);
    placed(s5, METADATA_2_ADDR as int, SLOT_1_ADDR as int, md)
}

fn check_image(index: usize, image: &Vec<u8>, stats: &InstructionStats) -> (r: Result<(), GenerateError>)
    requires
        stats.wf(),
    ensures
        r is Ok <==> image_error(index, image@, stats@) is None,
        r matches Err(e) ==> image_error(index, image@, stats@) == Some(e),
{
    if image.len() > SLOT_SIZE as usize {
        return Err(GenerateError::ImageTooLarge { index, len: image.len() });
    }
    if let Err(error) = is_likely_valid_binary_buf(image.as_slice(), stats) {
        return Err(GenerateError::InvalidImage { index, error });
    }
    if image.len() < 8 {
        return Err(GenerateError::ImageTooSmall { index, len: image.len() });
    }
    if let Err(error) = is_likely_valid_os_image_buf(image.as_slice()) {
        return Err(GenerateError::InvalidImage { index, error });
    }
    Ok(())
}

/// Assemble the 2 MiB flash image: the bootloader at offset 0, each payload
/// at the start of its slot, and one metadata block (version 1, preferring
/// slot 0, a version-1 record with CRC and length per payload, valid
/// checksum) at the start of both metadata pages; every other byte is zero.
/// `stats` holds the disassembly statistics of the bootloader and of the
/// three payloads, in that order. Every input is checked first: the
/// bootloader against the binary heuristics and the space before the
/// metadata, each payload against its slot size, the binary heuristics and
/// the entry-point check.
pub fn generate_buffer(
    bootloader_bin: &Vec<u8>,
    image_1_bin: &Vec<u8>,
    image_2_bin: &Vec<u8>,
    image_3_bin: &Vec<u8>,
    stats: &[InstructionStats; 4],
) -> (r: Result<Vec<u8>, GenerateError>)
    requires
        stats[0].wf(),
        stats[1].wf(),
        stats[2].wf(),
        stats[3].wf(),
    ensures
        r is Ok <==> generate_error(bootloader_bin@, image_1_bin@, image_2_bin@, image_3_bin@, *stats) is None,
        r matches Err(e) ==> generate_error(bootloader_bin@, image_1_bin@, image_2_bin@, image_3_bin@, *stats) == Some(e),
        r matches Ok(data) ==> data@ == built_image(bootloader_bin@, image_1_bin@, image_2_bin@, image_3_bin@),
{
    if let Err(e) = is_likely_valid_binary_buf(bootloader_bin.as_slice(), &stats[0]) {
        return Err(GenerateError::InvalidBootloader(e));
    }
    if bootloader_bin.len() > METADATA_1_ADDR as usize {
        return Err(GenerateError::BootloaderTooLarge { len: bootloader_bin.len() });
    }
    check_image(0, image_1_bin, &stats[1])?;
    check_image(1, image_2_bin, &stats[2])?;
    check_image(2, image_3_bin, &stats[3])?;

    let mut data: Vec<u8> = vec![0u8; FLASH_SIZE as usize];
    proof {
        assert(data@ =~= Seq::new(FLASH_SIZE as nat, |i: int| 0u8));
    }
    let _ = set_buf_from_to(&mut data, 0, METADATA_1_ADDR, bootloader_bin);
    let _ = set_buf_from_to(&mut data, SLOT_1_ADDR, SLOT_1_ADDR + image_1_bin.len() as u32, image_1_bin);
    let _ = set_buf_from_to(&mut data, SLOT_2_ADDR, SLOT_2_ADDR + image_2_bin.len() as u32, image_2_bin);
    let _ = set_buf_from_to(&mut data, SLOT_3_ADDR, SLOT_3_ADDR + image_3_bin.len() as u32, image_3_bin);

    let images = [
        ImageMetadata { version: 1, crc: calc_crc(image_1_bin.as_slice()), boot_counter: 0, length: image_1_bin.len() as u32 },
        ImageMetadata { version: 1, crc: calc_crc(image_2_bin.as_slice()), boot_counter: 0, length: image_2_bin.len() as u32 },
        ImageMetadata { version: 1, crc: calc_crc(image_3_bin.as_slice()), boot_counter: 0, length: image_3_bin.len() as u32 },
    ];
    let mut metadata = Metadata { version: 1, bootcounter: 0, preferred_image: 0, images, crc: 0 };
    metadata.set_crc();
    proof {
        assert(metadata.images =~= built_metadata(image_1_bin@, image_2_bin@, image_3_bin@).images);
    }
    let metadata_bytes = struct_to_bytes(&metadata);
    let _ = set_buf_from_to(&mut data, METADATA_1_ADDR, METADATA_2_ADDR, &metadata_bytes);
    let _ = set_buf_from_to(&mut data, METADATA_2_ADDR, SLOT_1_ADDR, &metadata_bytes);
    Ok(data)
}

/// Why an image file could not be read.
#[derive(Clone, Copy, Debug, PartialEq, Eq, Structural)]
pub enum ReadError {
    /// The file is not exactly the size of the flash.
    WrongSize { len: usize },
}

/// What a metadata record says of its payload, checked against the file.
#[derive(Clone, Copy, Debug, PartialEq, Eq, Structural)]
pub enum PayloadCheck {
    /// The recorded length runs past the end of the file.
    OutOfBounds { start: u64, end: u64 },
    /// CRC-32C of the recorded extent of the slot.
    Checked { crc: u32 },
}

/// Both metadata copies of an image file, their recomputed checksums, and
/// the recomputed checksum of each payload they describe.
#[derive(Debug)]
pub struct ImageFileReport {
    /// The copies at the first and the second metadata address.
    pub metadata: [Metadata; 2],
    /// The checksum each copy should carry.
    pub metadata_crc: [u32; 2],
    /// The payloads as the first copy records them, then as the second does.
    pub payloads: Vec<PayloadCheck>,
}

/// The check of payload `i` as metadata `m` records it.
pub open spec fn payload_check_spec(data: Seq<u8>, m: Metadata, i: int) -> PayloadCheck {
    let start = slot_addr_spec(i) as int;
    let end = start + m.images[i].length;
    if end > data.len() {
        PayloadCheck::OutOfBounds { start: start as u64, end: end as u64 }
    } else {
        PayloadCheck::Checked { crc: crc32c(data.subrange(start, end)) }
    }
}

/// Both copies are valid and identical, and every payload they describe
/// lies in the file and checksums to its record.
pub open spec fn image_file_ok(data: Seq<u8>) -> bool {
    let md1 = metadata_at(data, METADATA_1_ADDR as int);
    let md2 = metadata_at(data, METADATA_2_ADDR as int);
    &&& data.len() == FLASH_SIZE
    &&& md1.spec_is_valid()
    &&& md2.spec_is_valid()
    &&& md1 == md2
    &&& forall|i: int|
        0 <= i < 3 ==> payload_check_spec(data, md1, i) == (PayloadCheck::Checked {
            crc: md1.images[i].crc,
        })
}

impl ImageFileReport {
    /// The report is of `data`.
    pub open spec fn describes(&self, data: Seq<u8>) -> bool {
        &&& self.metadata[0] == metadata_at(data, METADATA_1_ADDR as int)
        &&& self.metadata[1] == metadata_at(data, METADATA_2_ADDR as int)
        &&& self.metadata_crc[0] == self.metadata[0].spec_crc()
        &&& self.metadata_crc[1] == self.metadata[1].spec_crc()
        &&& self.payloads@.len() == 6
        &&& forall|i: int|
            0 <= i < 3 ==> #[trigger] self.payloads@[i] == payload_check_spec(
                data,
                self.metadata[0],
                i,
            )
        &&& forall|i: int|
            3 <= i < 6 ==> #[trigger] self.payloads@[i] == payload_check_spec(
                data,
                self.metadata[1],
                i - 3,
            )
    }

    /// Nothing in the report disagrees: both copies are valid and equal and
    /// every payload checksums to its record.
    pub fn is_consistent(&self, data: &[u8]) -> (r: bool)
        requires
            data@.len() == FLASH_SIZE,
            self.describes(data@),
        ensures
            r == image_file_ok(data@),
    {
        let m0 = &self.metadata[0];
        let m1 = &self.metadata[1];
        if self.metadata_crc[0] != m0.crc || self.metadata_crc[1] != m1.crc {
            return false;
        }
        if !same_metadata(m0, m1) {
            return false;
        }
        let mut i: usize = 0;
        while i < 3
            invariant
                i <= 3,
                self.describes(data@),
                *m0 == self.metadata[0],
                *m0 == *m1,
                forall|j: int|
                    0 <= j < i ==> payload_check_spec(data@, *m0, j) == (PayloadCheck::Checked {
                        crc: m0.images[j].crc,
                    }),
            decreases 3 - i,
        {
            match self.payloads[i] {
                PayloadCheck::Checked { crc } => {
                    if crc != m0.images[i].crc {
                        proof {
                            assert(self.payloads@[i as int] == payload_check_spec(data@, self.metadata[0], i as int));
                        }
                        return false;
                    }
                },
                PayloadCheck::OutOfBounds { .. } => {
                    proof {
                        assert(self.payloads@[i as int] == payload_check_spec(data@, self.metadata[0], i as int));
                    }
                    return false;
                },
            }
            proof {
                assert(self.payloads@[i as int] == payload_check_spec(data@, self.metadata[0], i as int));
            }
            i = i + 1;
        }
        true
    }
}

/// The payload of image `i` as metadata `m` records it.
pub open spec fn payload_bytes(data: Seq<u8>, m: Metadata, i: int) -> Seq<u8> {
    data.subrange(slot_addr_spec(i) as int, slot_addr_spec(i) + m.images[i].length)
}

/// A payload passes the binary heuristics, given the statistics of its
/// disassembly, and its entry point lies in RAM.
pub open spec fn payload_acceptable(p: Seq<u8>, stats: StatsModel) -> bool {
    &&& binary_check_spec(p, stats) is Ok
    &&& p.len() >= 8
    &&& RAM_ADDR <= entry_point(p) < RAM_ADDR + RAM_SIZE
}

/// An image file that reads back clean and whose three payloads pass
/// every payload check, `stats[i]` being the disassembly statistics of
/// payload `i`.
pub open spec fn image_file_accepted(data: Seq<u8>, stats: [InstructionStats; 3]) -> bool {
    let md = metadata_at(data, METADATA_1_ADDR as int);
    &&& image_file_ok(data)
    &&& forall|i: int| 0 <= i < 3 ==> payload_acceptable(#[trigger] payload_bytes(data, md, i), stats[i]@)
}

impl ImageFileReport {
    /// The verdict on an image file: it reads back clean and its payloads
    /// pass the binary heuristics and the entry-point check. `stats[i]`
    /// holds the disassembly statistics of payload `i`.
    pub fn accepts(&self, data: &[u8], stats: &[InstructionStats; 3]) -> (r: bool)
        requires
            data@.len() == FLASH_SIZE,
            self.describes(data@),
            stats[0].wf(),
            stats[1].wf(),
            stats[2].wf(),
        ensures
            r == image_file_accepted(data@, *stats),
    {
        if !self.is_consistent(data) {
            return false;
        }
        let m = &self.metadata[0];
        let mut i: usize = 0;
        while i < 3
            invariant
                i <= 3,
                data@.len() == FLASH_SIZE,
                *m == metadata_at(data@, METADATA_1_ADDR as int),
                image_file_ok(data@),
                stats[0].wf(),
                stats[1].wf(),
                stats[2].wf(),
                forall|j: int| 0 <= j < i ==> payload_acceptable(#[trigger] payload_bytes(data@, *m, j), stats[j]@),
            decreases 3 - i,
        {
            assert(payload_check_spec(data@, *m, i as int) == (PayloadCheck::Checked { crc: m.images[i as int].crc }));
            let start = slot_addr(i) as usize;
            let end = start + m.images[i].length as usize;
            let payload = &data[start..end];
            assert(payload@ == payload_bytes(data@, *m, i as int));
            if is_likely_valid_binary_buf(payload, &stats[i]).is_err() || payload.len() < 8 {
                return false;
            }
            if is_likely_valid_os_image_buf(payload).is_err() {
                return false;
            }
            i = i + 1;
        }
        true
    }
}

fn same_metadata(a: &Metadata, b: &Metadata) -> (r: bool)
    ensures
        r == (*a == *b),
{
    let r = a.version == b.version && a.bootcounter == b.bootcounter && a.preferred_image
        == b.preferred_image && a.images[0] == b.images[0] && a.images[1] == b.images[1]
        && a.images[2] == b.images[2] && a.crc == b.crc;
    proof {
        if r {
            assert(a.images =~= b.images);
        }
    }
    r
}

fn check_payload(data: &[u8], m: &Metadata, i: usize) -> (r: PayloadCheck)
    requires
        data@.len() == FLASH_SIZE,
        i < 3,
    ensures
        r == payload_check_spec(data@, *m, i as int),
{
    let start = slot_addr(i) as u64;
    let end = start + m.images[i].length as u64;
    if end > data.len() as u64 {
        PayloadCheck::OutOfBounds { start, end }
    } else {
        PayloadCheck::Checked { crc: calc_crc(&data[start as usize..end as usize]) }
    }
}

/// Read back an image file: decode both metadata copies, recompute their
/// checksums and the checksum of every payload they describe.
pub fn read_image_file(data: &[u8]) -> (r: Result<ImageFileReport, ReadError>)
    ensures
        r is Err <==> data@.len() != FLASH_SIZE,
        r is Err ==> r == Err::<ImageFileReport, ReadError>(ReadError::WrongSize { len: data@.len() as usize }),
        r matches Ok(report) ==> report.describes(data@),
{
    if data.len() != FLASH_SIZE as usize {
        return Err(ReadError::WrongSize { len: data.len() });
    }
    let a1 = METADATA_1_ADDR as usize;
    let a2 = METADATA_2_ADDR as usize;
    let md1 = bytes_to_struct(&data[a1..a1 + METADATA_SIZE]);
    let md2 = bytes_to_struct(&data[a2..a2 + METADATA_SIZE]);
    let crc1 = md1.calc_crc();
    let crc2 = md2.calc_crc();
    let p0 = check_payload(data, &md1, 0);
    let p1 = check_payload(data, &md1, 1);
    let p2 = check_payload(data, &md1, 2);
    let p3 = check_payload(data, &md2, 0);
    let p4 = check_payload(data, &md2, 1);
    let p5 = check_payload(data, &md2, 2);
    let payloads: Vec<PayloadCheck> = vec![p0, p1, p2, p3, p4, p5];
    let report = ImageFileReport { metadata: [md1, md2], metadata_crc: [crc1, crc2], payloads };
    proof {
        assert(report.payloads@ =~= seq![p0, p1, p2, p3, p4, p5]);
        assert(report.metadata[0] == md1);
        assert(report.metadata[1] == md2);
    }
    Ok(report)
}

proof fn lemma_built_regions(bootloader: Seq<u8>, i1: Seq<u8>, i2: Seq<u8>, i3: Seq<u8>)
    requires
        bootloader.len() <= METADATA_1_ADDR,
        i1.len() <= SLOT_SIZE,
        i2.len() <= SLOT_SIZE,
        i3.len() <= SLOT_SIZE,
    ensures
        ({
            let img = built_image(bootloader, i1, i2, i3);
            let mb = built_metadata(i1, i2, i3).spec_bytes();
            &&& img.len() == FLASH_SIZE
            &&& img.subrange(METADATA_1_ADDR as int, METADATA_1_ADDR + METADATA_SIZE) == mb
            &&& img.subrange(METADATA_2_ADDR as int, METADATA_2_ADDR + METADATA_SIZE) == mb
            &&& img.subrange(SLOT_1_ADDR as int, SLOT_1_ADDR + i1.len()) == i1
            &&& img.subrange(SLOT_2_ADDR as int, SLOT_2_ADDR + i2.len()) == i2
            &&& img.subrange(SLOT_3_ADDR as int, SLOT_3_ADDR + i3.len()) == i3
        }),
{
    let md = built_metadata(i1, i2, i3);
    lemma_decode_encode(md);
    let mb = md.spec_bytes();
    let s0 = Seq::new(FLASH_SIZE as nat, |i: int| 0u8);
    let s1 = placed(s0, 0, METADATA_1_ADDR as int, bootloader);
    let s2 = placed(s1, SLOT_1_ADDR as int, SLOT_1_ADDR + i1.len(), i1);
    let s3 = placed(s2, SLOT_2_ADDR as int, SLOT_2_ADDR + i2.len(), i2);
    let s4 = placed(s3, SLOT_3_ADDR as int, SLOT_3_ADDR + i3.len(), i3);
    let s5 = placed(s4, METADATA_1_ADDR as int, METADATA_2_ADDR as int, mb);
    let img = placed(s5, METADATA_2_ADDR as int, SLOT_1_ADDR as int, mb);
    assert(img == built_image(bootloader, i1, i2, i3));
    assert(img.subrange(METADATA_1_ADDR as int, METADATA_1_ADDR + METADATA_SIZE) =~= mb);
    assert(img.subrange(METADATA_2_ADDR as int, METADATA_2_ADDR + METADATA_SIZE) =~= mb);
    assert(img.subrange(SLOT_1_ADDR as int, SLOT_1_ADDR + i1.len()) =~= i1);
    assert(img.subrange(SLOT_2_ADDR as int, SLOT_2_ADDR + i2.len()) =~= i2);
    assert(img.subrange(SLOT_3_ADDR as int, SLOT_3_ADDR + i3.len()) =~= i3);
}

/// A built image reads back clean: both metadata copies are valid and
/// identical, every payload lies in the image and checksums to its record,
/// and the device reading the same bytes boots slot 0.
pub proof fn lemma_generated_image_reads_back(
    bootloader: Seq<u8>,
    i1: Seq<u8>,
    i2: Seq<u8>,
    i3: Seq<u8>,
    stats: [InstructionStats; 4],
)
    requires
        generate_error(bootloader, i1, i2, i3, stats) is None,
    ensures
        image_file_ok(built_image(bootloader, i1, i2, i3)),
        metadata_at(built_image(bootloader, i1, i2, i3), METADATA_1_ADDR as int) == built_metadata(
            i1,
            i2,
            i3,
        ),
        crate::boot::select_image_spec(
            built_metadata(i1, i2, i3),
            built_image(bootloader, i1, i2, i3),
        ) == Some(0u32),
{
    let img = built_image(bootloader, i1, i2, i3);
    let md = built_metadata(i1, i2, i3);
    lemma_built_regions(bootloader, i1, i2, i3);
    lemma_decode_encode(md);
    crate::metadata::lemma_set_crc_makes_valid(
        Metadata {
            version: 1,
            bootcounter: 0,
            preferred_image: 0,
            images: [image_record(i1), image_record(i2), image_record(i3)],
            crc: 0,
        },
    );
    assert(metadata_at(img, METADATA_1_ADDR as int) == md);
    assert(metadata_at(img, METADATA_2_ADDR as int) == md);
    assert(md.images[0] == image_record(i1));
    assert(md.images[1] == image_record(i2));
    assert(md.images[2] == image_record(i3));
    assert(payload_check_spec(img, md, 0) == (PayloadCheck::Checked { crc: md.images[0].crc }));
    assert(payload_check_spec(img, md, 1) == (PayloadCheck::Checked { crc: md.images[1].crc }));
    assert(payload_check_spec(img, md, 2) == (PayloadCheck::Checked { crc: md.images[2].crc }));
    assert(slot_bytes(img, 0).subrange(0, i1.len() as int) =~= img.subrange(
        SLOT_1_ADDR as int,
        SLOT_1_ADDR + i1.len(),
    ));
    assert(slot_ok(md, img, 0));
}

proof fn lemma_image_ok_is_acceptable(index: usize, image: Seq<u8>, st: StatsModel)
    requires
        image_error(index, image, st) is None,
    ensures
        payload_acceptable(image, st),
{
}

proof fn lemma_built_payloads(bootloader: Seq<u8>, i1: Seq<u8>, i2: Seq<u8>, i3: Seq<u8>)
    requires
        bootloader.len() <= METADATA_1_ADDR,
        i1.len() <= SLOT_SIZE,
        i2.len() <= SLOT_SIZE,
        i3.len() <= SLOT_SIZE,
    ensures
        ({
            let img = built_image(bootloader, i1, i2, i3);
            let md = built_metadata(i1, i2, i3);
            &&& metadata_at(img, METADATA_1_ADDR as int) == md
            &&& payload_bytes(img, md, 0) == i1
            &&& payload_bytes(img, md, 1) == i2
            &&& payload_bytes(img, md, 2) == i3
        }),
{
    let md = built_metadata(i1, i2, i3);
    lemma_built_regions(bootloader, i1, i2, i3);
    lemma_decode_encode(md);
    assert(md.images[0] == image_record(i1));
    assert(md.images[1] == image_record(i2));
    assert(md.images[2] == image_record(i3));
}

/// A built image is accepted on read-back when each payload's statistics
/// are those it was built with: it reads back clean and every payload
/// passes the binary heuristics and the entry-point check.
pub proof fn lemma_generated_image_is_accepted(
    bootloader: Seq<u8>,
    i1: Seq<u8>,
    i2: Seq<u8>,
    i3: Seq<u8>,
    stats: [InstructionStats; 4],
)
    requires
        generate_error(bootloader, i1, i2, i3, stats) is None,
    ensures
        image_file_accepted(built_image(bootloader, i1, i2, i3), [stats[1], stats[2], stats[3]]),
{
    let st = [stats[1], stats[2], stats[3]];
    lemma_generated_image_reads_back(bootloader, i1, i2, i3, stats);
    lemma_built_payloads(bootloader, i1, i2, i3);
    lemma_image_ok_is_acceptable(0, i1, stats[1]@);
    lemma_image_ok_is_acceptable(1, i2, stats[2]@);
    lemma_image_ok_is_acceptable(2, i3, stats[3]@);
    let img = built_image(bootloader, i1, i2, i3);
    let md = built_metadata(i1, i2, i3);
    assert(st[0] == stats[1] && st[1] == stats[2] && st[2] == stats[3]);
    assert forall|i: int| 0 <= i < 3 implies payload_acceptable(
        #[trigger] payload_bytes(img, md, i),
        st[i]@,
    ) by {}
}

} // verus!
