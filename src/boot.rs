//! Boot selection: which metadata copy to trust and repair, which slot to
//! boot, the soft-reboot hint, and the copy-then-verify retry of an image
//! into RAM. Everything here is a pure function of values read from flash
//! and from the scratch registers; the device performs what it decides.

use vstd::prelude::*;
use crate::crc::{calc_crc32, crc32c};
use crate::layout::{
    slot_addr, slot_addr_spec, FLASH_SIZE, MAX_PAGE_SIZE, METADATA_1_ADDR, METADATA_2_ADDR,
    METADATA_SIZE, NUMBER_OF_IMAGES, SLOT_SIZE,
};
use crate::metadata::{bytes_to_struct, metadata_from_bytes, ImageMetadata, Metadata};
use crate::pages::{page_span, page_span_spec};

verus! {

/// Magic value in scratch register 0 that marks a soft-reboot hint.
pub const SOFT_REBOOT_MAGIC: u32 = 0x5457;

/// Number of copies of an image into RAM tried before giving up.
pub const COPY_ATTEMPTS: u32 = 3;

/// Which metadata block to use, and where to rewrite it if the other copy
/// is stale or corrupted.
#[derive(Clone, Copy, Debug)]
pub struct MetadataSelectResult {
    /// The metadata to select an image with; `None` when neither copy is valid.
    pub meta: Option<Metadata>,
    /// Flash address of the copy to overwrite with `meta`.
    pub write_addr: Option<u32>,
}

/// The decision table for two metadata copies and their validity.
pub open spec fn select_spec(md1: Metadata, md1_valid: bool, md2: Metadata, md2_valid: bool) -> (
    Option<Metadata>,
    Option<u32>,
) {
    if md1_valid && md2_valid {
        if md1.version > md2.version {
            (Some(md1), Some(METADATA_2_ADDR))
        } else if md1.version < md2.version {
            (Some(md2), Some(METADATA_1_ADDR))
        } else {
            (Some(md1), None)
        }
    } else if md1_valid {
        (Some(md1), Some(METADATA_2_ADDR))
    } else if md2_valid {
        (Some(md2), Some(METADATA_1_ADDR))
    } else {
        (None, None)
    }
}

/// Choose which of two metadata copies to trust, given their validity.
/// Both valid: the newer one, overwriting the older; equal versions need no
/// write. One valid: that one, overwriting the other. None valid: nothing.
pub fn internal_select(md1: Metadata, md1_valid: bool, md2: Metadata, md2_valid: bool) -> (r:
    MetadataSelectResult)
    ensures
        (r.meta, r.write_addr) == select_spec(md1, md1_valid, md2, md2_valid),
        !md1_valid && !md2_valid ==> r.meta is None && r.write_addr is None,
        md1_valid && !md2_valid ==> r.meta == Some(md1) && r.write_addr == Some(METADATA_2_ADDR),
        !md1_valid && md2_valid ==> r.meta == Some(md2) && r.write_addr == Some(METADATA_1_ADDR),
        md1_valid && md2_valid && md1.version > md2.version ==> r.meta == Some(md1)
            && r.write_addr == Some(METADATA_2_ADDR),
        md1_valid && md2_valid && md1.version < md2.version ==> r.meta == Some(md2)
            && r.write_addr == Some(METADATA_1_ADDR),
        md1_valid && md2_valid && md1.version == md2.version ==> r.meta == Some(md1)
            && r.write_addr is None,
{
    if md1_valid && md2_valid {
        if md1.version > md2.version {
            MetadataSelectResult { meta: Some(md1), write_addr: Some(METADATA_2_ADDR) }
        } else if md1.version < md2.version {
            MetadataSelectResult { meta: Some(md2), write_addr: Some(METADATA_1_ADDR) }
        } else {
            MetadataSelectResult { meta: Some(md1), write_addr: None }
        }
    } else if md1_valid {
        MetadataSelectResult { meta: Some(md1), write_addr: Some(METADATA_2_ADDR) }
    } else if md2_valid {
        MetadataSelectResult { meta: Some(md2), write_addr: Some(METADATA_1_ADDR) }
    } else {
        MetadataSelectResult { meta: None, write_addr: None }
    }
}

/// The metadata block stored at `addr` in a flash image.
pub open spec fn metadata_at(flash: Seq<u8>, addr: int) -> Metadata {
    metadata_from_bytes(flash.subrange(addr, addr + METADATA_SIZE))
}

/// Read both metadata copies out of the flash contents and select one.
pub fn select_metadata(flash: &[u8]) -> (r: MetadataSelectResult)
    requires
        flash@.len() == FLASH_SIZE,
    ensures
        ({
            let md1 = metadata_at(flash@, METADATA_1_ADDR as int);
            let md2 = metadata_at(flash@, METADATA_2_ADDR as int);
            (r.meta, r.write_addr) == select_spec(
                md1,
                md1.spec_is_valid(),
                md2,
                md2.spec_is_valid(),
            )
        }),
{
    let a1 = METADATA_1_ADDR as usize;
    let a2 = METADATA_2_ADDR as usize;
    let md1 = bytes_to_struct(&flash[a1..a1 + METADATA_SIZE]);
    let md2 = bytes_to_struct(&flash[a2..a2 + METADATA_SIZE]);
    let v1 = md1.is_valid();
    let v2 = md2.is_valid();
    internal_select(md1, v1, md2, v2)
}

/// The payload described by `m` sits at the start of `slot` and checksums
/// to the recorded CRC.
pub open spec fn image_matches(m: ImageMetadata, slot: Seq<u8>) -> bool {
    m.length <= slot.len() && crc32c(slot.subrange(0, m.length as int)) == m.crc
}

/// The bytes of slot `i` in a flash image.
pub open spec fn slot_bytes(flash: Seq<u8>, i: int) -> Seq<u8> {
    flash.subrange(slot_addr_spec(i) as int, slot_addr_spec(i) + SLOT_SIZE)
}

/// Slot `i` holds the payload that `meta` describes for it.
pub open spec fn slot_ok(meta: Metadata, flash: Seq<u8>, i: int) -> bool {
    image_matches(meta.images[i], slot_bytes(flash, i))
}

/// The slot to boot: the preferred one when it checks out, else the first
/// that does, else none.
pub open spec fn select_image_spec(meta: Metadata, flash: Seq<u8>) -> Option<u32> {
    let p = meta.preferred_image;
    if p < NUMBER_OF_IMAGES && slot_ok(meta, flash, p as int) {
        Some(p)
    } else if slot_ok(meta, flash, 0) {
        Some(0)
    } else if slot_ok(meta, flash, 1) {
        Some(1)
    } else if slot_ok(meta, flash, 2) {
        Some(2)
    } else {
        None
    }
}

/// Check that the first `image_meta.length` bytes of `image` have the CRC
/// that `image_meta` records.
pub fn verify_image(image_meta: &ImageMetadata, image: &[u8]) -> (r: bool)
    ensures
        r == image_matches(*image_meta, image@),
{
    let length = image_meta.length as usize;
    if length > image.len() {
        return false;
    }
    let crc = calc_crc32(&image[0..length]);
    crc == image_meta.crc
}

fn check_slot(meta: &Metadata, flash: &[u8], i: usize) -> (r: bool)
    requires
        flash@.len() == FLASH_SIZE,
        i < NUMBER_OF_IMAGES,
    ensures
        r == slot_ok(*meta, flash@, i as int),
{
    let start = slot_addr(i) as usize;
    let end = start + SLOT_SIZE as usize;
    verify_image(&meta.images[i], &flash[start..end])
}

/// Choose the slot to boot from valid metadata: the preferred slot when its
/// payload checks out, otherwise the first slot, in order, that does.
/// `None` when no slot checks out.
pub fn select_image(meta: &Metadata, flash: &[u8]) -> (r: Option<u32>)
    requires
        flash@.len() == FLASH_SIZE,
    ensures
        r == select_image_spec(*meta, flash@),
        r matches Some(i) ==> i < NUMBER_OF_IMAGES,
{
    let p = meta.preferred_image;
    let preferred_ok = if p < NUMBER_OF_IMAGES as u32 {
        check_slot(meta, flash, p as usize)
    } else {
        false
    };
    if preferred_ok {
        return Some(p);
    }
    let mut i: usize = 0;
    while i < NUMBER_OF_IMAGES
        invariant
            i <= NUMBER_OF_IMAGES,
            flash@.len() == FLASH_SIZE,
            p == meta.preferred_image,
            !(p < NUMBER_OF_IMAGES && slot_ok(*meta, flash@, p as int)),
            forall|j: int| 0 <= j < i ==> !slot_ok(*meta, flash@, j),
        decreases NUMBER_OF_IMAGES - i,
    {
        if check_slot(meta, flash, i) {
            proof {
                if i >= 1 {
                    assert(!slot_ok(*meta, flash@, 0));
                }
                if i >= 2 {
                    assert(!slot_ok(*meta, flash@, 1));
                }
                assert(slot_ok(*meta, flash@, i as int));
            }
            return Some(i as u32);
        }
        i = i + 1;
    }
    proof {
        assert(!slot_ok(*meta, flash@, 0));
        assert(!slot_ok(*meta, flash@, 1));
        assert(!slot_ok(*meta, flash@, 2));
    }
    None
}

/// What to do with the soft-reboot hint in the two scratch registers.
#[derive(Clone, Copy, Debug, PartialEq, Eq, Structural)]
pub struct SoftReboot {
    /// Zero both registers: the hint has been consumed.
    pub clear_registers: bool,
    /// The slot to boot, bypassing metadata.
    pub index: Option<u32>,
}

/// Read the soft-reboot hint: register 0 holds the magic value when a hint
/// is present, register 1 the slot to boot. A present hint is consumed
/// whether or not its slot index is in range.
pub fn is_soft(register0: u32, register1: u32) -> (r: SoftReboot)
    ensures
        r.clear_registers == (register0 == SOFT_REBOOT_MAGIC),
        r.index == (if register0 == SOFT_REBOOT_MAGIC && register1 < NUMBER_OF_IMAGES {
            Some(register1)
        } else {
            None
        }),
{
    if register0 == SOFT_REBOOT_MAGIC {
        if register1 < NUMBER_OF_IMAGES as u32 {
            SoftReboot { clear_registers: true, index: Some(register1) }
        } else {
            SoftReboot { clear_registers: true, index: None }
        }
    } else {
        SoftReboot { clear_registers: false, index: None }
    }
}

/// A metadata block to write to flash before booting.
#[derive(Clone, Copy, Debug)]
pub struct Repair {
    pub addr: u32,
    pub metadata: Metadata,
}

/// Where the boot goes.
#[derive(Clone, Copy, Debug, PartialEq, Eq, Structural)]
pub enum BootTarget {
    /// Copy the first `length` bytes of slot `index` to RAM and hand off.
    Slot { index: u32, length: u32 },
    /// Neither metadata copy is valid.
    Failsafe,
    /// The metadata is valid but no slot matches it.
    NoBootableImage,
}

/// Everything the device does on one boot, in order: consume the hint,
/// repair a metadata copy, then boot the target.
#[derive(Clone, Copy, Debug)]
pub struct BootPlan {
    pub clear_hint: bool,
    pub repair: Option<Repair>,
    pub target: BootTarget,
}

/// The boot target chosen by metadata.
pub open spec fn metadata_target(meta: Option<Metadata>, flash: Seq<u8>) -> BootTarget {
    match meta {
        None => BootTarget::Failsafe,
        Some(m) => match select_image_spec(m, flash) {
            Some(i) => BootTarget::Slot { index: i, length: m.images[i as int].length },
            None => BootTarget::NoBootableImage,
        },
    }
}

/// Plan one boot from the scratch registers and the flash contents. A valid
/// soft-reboot hint boots its whole slot and touches no metadata; otherwise
/// the metadata selection decides the repair and the image.
pub fn run(register0: u32, register1: u32, flash: &[u8]) -> (r: BootPlan)
    requires
        flash@.len() == FLASH_SIZE,
    ensures
        r.clear_hint == (register0 == SOFT_REBOOT_MAGIC),
        register0 == SOFT_REBOOT_MAGIC && register1 < NUMBER_OF_IMAGES ==> r.repair is None
            && r.target == (BootTarget::Slot { index: register1, length: SLOT_SIZE }),
        !(register0 == SOFT_REBOOT_MAGIC && register1 < NUMBER_OF_IMAGES) ==> ({
            let md1 = metadata_at(flash@, METADATA_1_ADDR as int);
            let md2 = metadata_at(flash@, METADATA_2_ADDR as int);
            let (meta, write_addr) = select_spec(
                md1,
                md1.spec_is_valid(),
                md2,
                md2.spec_is_valid(),
            );
            &&& r.target == metadata_target(meta, flash@)
            &&& (write_addr is None ==> r.repair is None)
            &&& (write_addr matches Some(a) ==> r.repair == Some(
                Repair { addr: a, metadata: meta.unwrap() },
            ))
        }),
{
    let hint = is_soft(register0, register1);
    if let Some(index) = hint.index {
        return BootPlan {
            clear_hint: true,
            repair: None,
            target: BootTarget::Slot { index, length: SLOT_SIZE },
        };
    }
    let selected = select_metadata(flash);
    match selected.meta {
        None => BootPlan { clear_hint: hint.clear_registers, repair: None, target: BootTarget::Failsafe },
        Some(m) => {
            let repair = match selected.write_addr {
                Some(addr) => Some(Repair { addr, metadata: m }),
                None => None,
            };
            let target = match select_image(&m, flash) {
                Some(i) => BootTarget::Slot { index: i, length: m.images[i as usize].length },
                None => BootTarget::NoBootableImage,
            };
            BootPlan { clear_hint: hint.clear_registers, repair, target }
        },
    }
}

/// What the device reports back to the copy procedure.
#[derive(Clone, Copy, Debug, PartialEq, Eq, Structural)]
pub enum CopyEvent {
    /// Start, or the page asked for has been copied and the watchdog fed.
    Continue,
    /// CRC-32C of the image as it now stands in RAM.
    RamCrc(u32),
}

/// The next thing the device does while copying an image into RAM.
#[derive(Clone, Copy, Debug, PartialEq, Eq, Structural)]
pub enum CopyAction {
    /// Copy page `n` of the slot to page `n` of RAM, then feed the watchdog.
    CopyPage(u32),
    /// Compute the CRC of the image in RAM and report it.
    VerifyRam,
    /// The RAM copy matches the slot: hand off to the image in RAM.
    HandOff,
    /// Every attempt produced a RAM copy that does not match: reset.
    Reset,
}

/// Copy-then-verify of one image into RAM, page by page, with a bounded
/// number of attempts.
#[derive(Clone, Copy, Debug)]
pub struct CopyToRam {
    /// CRC-32C of the image in the slot.
    pub crc_before: u32,
    /// Pages to copy per attempt.
    pub pages: u32,
    /// Attempts that have failed so far.
    pub attempt: u32,
    /// Next page to copy in this attempt.
    pub next_page: u32,
}

impl CopyToRam {
    pub open spec fn wf(self) -> bool {
        self.attempt < COPY_ATTEMPTS && self.next_page <= self.pages
    }

    /// Start copying an image of `length` bytes whose slot checksums to
    /// `crc_before`.
    pub fn new(crc_before: u32, length: u32, page_size: u32) -> (r: CopyToRam)
        requires
            length <= FLASH_SIZE,
            page_size > 0,
        ensures
            r.wf(),
            r.crc_before == crc_before,
            r.pages == page_span_spec(length as int, page_size as int),
            r.attempt == 0,
            r.next_page == 0,
    {
        CopyToRam { crc_before, pages: page_span(length, page_size), attempt: 0, next_page: 0 }
    }

    fn continue_copy(&mut self) -> (a: CopyAction)
        requires
            old(self).wf(),
        ensures
            final(self).wf(),
            final(self).crc_before == old(self).crc_before,
            final(self).pages == old(self).pages,
            final(self).attempt == old(self).attempt,
            old(self).next_page < old(self).pages ==> a == CopyAction::CopyPage(old(self).next_page)
                && final(self).next_page == old(self).next_page + 1,
            old(self).next_page >= old(self).pages ==> a == CopyAction::VerifyRam
                && final(self).next_page == old(self).next_page,
    {
        if self.next_page < self.pages {
            let n = self.next_page;
            self.next_page = n + 1;
            CopyAction::CopyPage(n)
        } else {
            CopyAction::VerifyRam
        }
    }

    /// Advance on an event: copy the pages in order, then verify; a match
    /// hands off to the image, a mismatch starts the next attempt from page
    /// 0, and the third mismatch resets the device.
    pub fn step(&mut self, event: CopyEvent) -> (a: CopyAction)
        requires
            old(self).wf(),
        ensures
            final(self).wf(),
            final(self).crc_before == old(self).crc_before,
            final(self).pages == old(self).pages,
            event == CopyEvent::Continue ==> final(self).attempt == old(self).attempt && (if old(
                self,
            ).next_page < old(self).pages {
                a == CopyAction::CopyPage(old(self).next_page) && final(self).next_page == old(
                    self,
                ).next_page + 1
            } else {
                a == CopyAction::VerifyRam && final(self).next_page == old(self).next_page
            }),
            event == CopyEvent::RamCrc(old(self).crc_before) ==> a == CopyAction::HandOff
                && *final(self) == *old(self),
            (event matches CopyEvent::RamCrc(c) && c != old(self).crc_before && old(self).attempt
                + 1 >= COPY_ATTEMPTS) ==> a == CopyAction::Reset && *final(self) == *old(self),
            (event matches CopyEvent::RamCrc(c) && c != old(self).crc_before && old(self).attempt
                + 1 < COPY_ATTEMPTS) ==> final(self).attempt == old(self).attempt + 1 && (if 0 < old(
                self,
            ).pages {
                a == CopyAction::CopyPage(0) && final(self).next_page == 1
            } else {
                a == CopyAction::VerifyRam && final(self).next_page == 0
            }),
    {
        match event {
            CopyEvent::Continue => self.continue_copy(),
            CopyEvent::RamCrc(c) => {
                if c == self.crc_before {
                    CopyAction::HandOff
                } else if self.attempt + 1 >= COPY_ATTEMPTS {
                    CopyAction::Reset
                } else {
                    self.attempt = self.attempt + 1;
                    self.next_page = 0;
                    self.continue_copy()
                }
            },
        }
    }
}

/// A metadata repair that is cut short, leaving any bytes at all on the
/// page being rewritten, still leaves valid metadata for the next boot: the
/// copy that was chosen lies on the other page and is untouched.
pub proof fn lemma_interrupted_repair_keeps_metadata(flash: Seq<u8>, after: Seq<u8>)
    requires
        flash.len() == FLASH_SIZE,
        after.len() == FLASH_SIZE,
        ({
            let md1 = metadata_at(flash, METADATA_1_ADDR as int);
            let md2 = metadata_at(flash, METADATA_2_ADDR as int);
            let (meta, write_addr) = select_spec(md1, md1.spec_is_valid(), md2, md2.spec_is_valid());
            write_addr matches Some(a) && forall|i: int|
                0 <= i < FLASH_SIZE && !(a <= i < a + MAX_PAGE_SIZE) ==> after[i] == flash[i]
        }),
    ensures
        ({
            let md1 = metadata_at(after, METADATA_1_ADDR as int);
            let md2 = metadata_at(after, METADATA_2_ADDR as int);
            select_spec(md1, md1.spec_is_valid(), md2, md2.spec_is_valid()).0 is Some
        }),
{
    let md1 = metadata_at(flash, METADATA_1_ADDR as int);
    let md2 = metadata_at(flash, METADATA_2_ADDR as int);
    let a = select_spec(md1, md1.spec_is_valid(), md2, md2.spec_is_valid()).1.unwrap();
    if a == METADATA_2_ADDR {
        assert(after.subrange(METADATA_1_ADDR as int, METADATA_1_ADDR + METADATA_SIZE) =~= flash.subrange(
            METADATA_1_ADDR as int,
            METADATA_1_ADDR + METADATA_SIZE,
        ));
        assert(metadata_at(after, METADATA_1_ADDR as int) == md1);
        assert(md1.spec_is_valid());
    } else {
        assert(after.subrange(METADATA_2_ADDR as int, METADATA_2_ADDR + METADATA_SIZE) =~= flash.subrange(
            METADATA_2_ADDR as int,
            METADATA_2_ADDR + METADATA_SIZE,
        ));
        assert(metadata_at(after, METADATA_2_ADDR as int) == md2);
        assert(md2.spec_is_valid());
    }
}

/// The first `length` bytes of slot `i`, as `meta` records the length,
/// checksum to the recorded CRC.
pub open spec fn slot_crc_matches(meta: Metadata, flash: Seq<u8>, i: int) -> bool {
    let start = slot_addr_spec(i) as int;
    crc32c(flash.subrange(start, start + meta.images[i].length)) == meta.images[i].crc
}

/// For a recorded length that fits its slot, a slot checks out exactly when
/// its recorded extent checksums to the recorded CRC.
pub proof fn lemma_slot_ok_is_crc_match(meta: Metadata, flash: Seq<u8>, i: int)
    requires
        flash.len() == FLASH_SIZE,
        0 <= i < NUMBER_OF_IMAGES,
        meta.images[i].length <= SLOT_SIZE,
    ensures
        slot_ok(meta, flash, i) == slot_crc_matches(meta, flash, i),
{
    let start = slot_addr_spec(i) as int;
    assert(slot_bytes(flash, i).subrange(0, meta.images[i].length as int) =~= flash.subrange(
        start,
        start + meta.images[i].length,
    ));
}

/// The preferred slot boots whenever its recorded extent, fitting the
/// slot, checksums to its record.
pub proof fn lemma_preferred_slot_boots(meta: Metadata, flash: Seq<u8>)
    requires
        flash.len() == FLASH_SIZE,
        meta.preferred_image < NUMBER_OF_IMAGES,
        meta.images[meta.preferred_image as int].length <= SLOT_SIZE,
        slot_crc_matches(meta, flash, meta.preferred_image as int),
    ensures
        select_image_spec(meta, flash) == Some(meta.preferred_image),
{
    lemma_slot_ok_is_crc_match(meta, flash, meta.preferred_image as int);
}

/// When the preferred slot does not check out, the first slot in order
/// whose recorded extent checksums to its record boots; recorded lengths
/// fit their slots.
pub proof fn lemma_first_matching_slot_boots(meta: Metadata, flash: Seq<u8>, k: int)
    requires
        flash.len() == FLASH_SIZE,
        0 <= k < NUMBER_OF_IMAGES,
        forall|j: int| 0 <= j < NUMBER_OF_IMAGES ==> meta.images[j].length <= SLOT_SIZE,
        meta.preferred_image < NUMBER_OF_IMAGES ==> !slot_crc_matches(
            meta,
            flash,
            meta.preferred_image as int,
        ),
        forall|j: int| 0 <= j < k ==> !slot_crc_matches(meta, flash, j),
        slot_crc_matches(meta, flash, k),
    ensures
        select_image_spec(meta, flash) == Some(k as u32),
{
    lemma_slot_ok_is_crc_match(meta, flash, 0);
    lemma_slot_ok_is_crc_match(meta, flash, 1);
    lemma_slot_ok_is_crc_match(meta, flash, 2);
}

} // verus!
