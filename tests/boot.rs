use abc_boot::boot::{
    internal_select, is_soft, run, select_image, select_metadata, verify_image, BootTarget,
    CopyAction, CopyEvent, CopyToRam,
};
use abc_boot::crc::calc_crc32;
use abc_boot::layout::{
    FLASH_SIZE, METADATA_1_ADDR, METADATA_2_ADDR, SLOT_1_ADDR, SLOT_2_ADDR, SLOT_3_ADDR, SLOT_SIZE,
};
use abc_boot::metadata::{struct_to_bytes, ImageMetadata, Metadata};

fn payload(seed: u8, len: usize) -> Vec<u8> {
    (0..len).map(|i| (i as u8).wrapping_mul(31).wrapping_add(seed)).collect()
}

fn metadata_for(version: u32, preferred: u32, payloads: &[Vec<u8>; 3]) -> Metadata {
    let rec = |p: &Vec<u8>| ImageMetadata {
        version: 1,
        crc: calc_crc32(p),
        boot_counter: 0,
        length: p.len() as u32,
    };
    let mut m = Metadata {
        version,
        bootcounter: 0,
        preferred_image: preferred,
        images: [rec(&payloads[0]), rec(&payloads[1]), rec(&payloads[2])],
        crc: 0,
    };
    m.set_crc();
    m
}

fn flash_with(a: &Metadata, b: &Metadata, payloads: &[Vec<u8>; 3]) -> Vec<u8> {
    let mut flash = vec![0xffu8; FLASH_SIZE as usize];
    for (addr, m) in [(METADATA_1_ADDR, a), (METADATA_2_ADDR, b)] {
        let bytes = struct_to_bytes(m);
        flash[addr as usize..addr as usize + 64].copy_from_slice(&bytes);
    }
    for (addr, p) in [SLOT_1_ADDR, SLOT_2_ADDR, SLOT_3_ADDR].iter().zip(payloads.iter()) {
        flash[*addr as usize..*addr as usize + p.len()].copy_from_slice(p);
    }
    flash
}

fn payloads() -> [Vec<u8>; 3] {
    [payload(1, 300), payload(2, 5000), payload(3, 9000)]
}

fn md(version: u32) -> Metadata {
    metadata_for(version, 0, &payloads())
}

#[test]
fn select_decision_table() {
    let a = md(4);
    let b = md(3);
    let r = internal_select(a, false, b, false);
    assert_eq!((r.meta, r.write_addr), (None, None));
    let r = internal_select(a, true, b, false);
    assert_eq!((r.meta, r.write_addr), (Some(a), Some(METADATA_2_ADDR)));
    let r = internal_select(a, false, b, true);
    assert_eq!((r.meta, r.write_addr), (Some(b), Some(METADATA_1_ADDR)));
    let r = internal_select(a, true, b, true);
    assert_eq!((r.meta, r.write_addr), (Some(a), Some(METADATA_2_ADDR)));
    let r = internal_select(b, true, a, true);
    assert_eq!((r.meta, r.write_addr), (Some(a), Some(METADATA_1_ADDR)));
    let c = md(4);
    let r = internal_select(a, true, c, true);
    assert_eq!((r.meta, r.write_addr), (Some(a), None));
}

#[test]
fn soft_reboot_boots_hinted_slot() {
    // Both metadata copies erased: the hint alone decides.
    let flash = vec![0xffu8; FLASH_SIZE as usize];
    let plan = run(0x5457, 1, &flash);
    assert!(plan.clear_hint);
    assert!(plan.repair.is_none());
    assert_eq!(plan.target, BootTarget::Slot { index: 1, length: SLOT_SIZE });
    let hint = is_soft(0x5457, 1);
    assert!(hint.clear_registers);
    assert_eq!(hint.index, Some(1));
}

#[test]
fn soft_reboot_with_bad_index_is_consumed_and_ignored() {
    let hint = is_soft(0x5457, 3);
    assert!(hint.clear_registers);
    assert_eq!(hint.index, None);
    let hint = is_soft(0x1234, 1);
    assert!(!hint.clear_registers);
    assert_eq!(hint.index, None);
    let flash = vec![0xffu8; FLASH_SIZE as usize];
    let plan = run(0x5457, 7, &flash);
    assert!(plan.clear_hint);
    assert_eq!(plan.target, BootTarget::Failsafe);
}

#[test]
fn equal_versions_boot_preferred_without_write() {
    let p = payloads();
    let m = metadata_for(5, 2, &p);
    let flash = flash_with(&m, &m, &p);
    let plan = run(0, 0, &flash);
    assert!(!plan.clear_hint);
    assert!(plan.repair.is_none());
    assert_eq!(plan.target, BootTarget::Slot { index: 2, length: p[2].len() as u32 });
}

#[test]
fn newer_copy_a_overwrites_b() {
    let p = payloads();
    let a = metadata_for(7, 0, &p);
    let b = metadata_for(6, 1, &p);
    let flash = flash_with(&a, &b, &p);
    let sel = select_metadata(&flash);
    assert_eq!(sel.meta, Some(a));
    assert_eq!(sel.write_addr, Some(METADATA_2_ADDR));
    let plan = run(0, 0, &flash);
    let repair = plan.repair.expect("repair");
    assert_eq!(repair.addr, METADATA_2_ADDR);
    assert_eq!(repair.metadata, a);
    assert_eq!(plan.target, BootTarget::Slot { index: 0, length: p[0].len() as u32 });
}

#[test]
fn corrupted_copy_b_is_repaired_from_a() {
    let p = payloads();
    let a = metadata_for(3, 1, &p);
    let mut b = a;
    b.crc ^= 0x5a5a;
    let flash = flash_with(&a, &b, &p);
    let plan = run(0, 0, &flash);
    let repair = plan.repair.expect("repair");
    assert_eq!(repair.addr, METADATA_2_ADDR);
    assert_eq!(repair.metadata, a);
    assert_eq!(plan.target, BootTarget::Slot { index: 1, length: p[1].len() as u32 });
}

#[test]
fn preferred_slot_bit_rot_falls_back() {
    let p = payloads();
    let m = metadata_for(2, 0, &p);
    let mut flash = flash_with(&m, &m, &p);
    flash[SLOT_1_ADDR as usize + 10] ^= 0x40;
    assert_eq!(select_image(&m, &flash), Some(1));
    let plan = run(0, 0, &flash);
    assert_eq!(plan.target, BootTarget::Slot { index: 1, length: p[1].len() as u32 });
}

#[test]
fn no_matching_slot_and_no_metadata() {
    let p = payloads();
    let m = metadata_for(2, 0, &p);
    let mut flash = flash_with(&m, &m, &p);
    for addr in [SLOT_1_ADDR, SLOT_2_ADDR, SLOT_3_ADDR] {
        flash[addr as usize] ^= 1;
    }
    assert_eq!(select_image(&m, &flash), None);
    assert_eq!(run(0, 0, &flash).target, BootTarget::NoBootableImage);
    let erased = vec![0xffu8; FLASH_SIZE as usize];
    let plan = run(0, 0, &erased);
    assert!(plan.repair.is_none());
    assert_eq!(plan.target, BootTarget::Failsafe);
}

#[test]
fn verify_image_checks_length_and_crc() {
    let p = payload(9, 64);
    let rec = ImageMetadata { version: 1, crc: calc_crc32(&p), boot_counter: 0, length: 64 };
    assert!(verify_image(&rec, &p));
    assert!(!verify_image(&rec, &p[..63]));
    let wrong = ImageMetadata { crc: rec.crc ^ 1, ..rec };
    assert!(!verify_image(&wrong, &p));
}

#[test]
fn copy_succeeds_after_one_retry() {
    let mut c = CopyToRam::new(0xAAAA, 0x2001, 0x1000);
    assert_eq!(c.pages, 3);
    assert_eq!(c.step(CopyEvent::Continue), CopyAction::CopyPage(0));
    assert_eq!(c.step(CopyEvent::Continue), CopyAction::CopyPage(1));
    assert_eq!(c.step(CopyEvent::Continue), CopyAction::CopyPage(2));
    assert_eq!(c.step(CopyEvent::Continue), CopyAction::VerifyRam);
    assert_eq!(c.step(CopyEvent::RamCrc(0xBBBB)), CopyAction::CopyPage(0));
    assert_eq!(c.step(CopyEvent::Continue), CopyAction::CopyPage(1));
    assert_eq!(c.step(CopyEvent::Continue), CopyAction::CopyPage(2));
    assert_eq!(c.step(CopyEvent::Continue), CopyAction::VerifyRam);
    assert_eq!(c.step(CopyEvent::RamCrc(0xAAAA)), CopyAction::HandOff);
}

#[test]
fn copy_fails_after_three_mismatches() {
    let mut c = CopyToRam::new(1, 0x1000, 0x1000);
    assert_eq!(c.step(CopyEvent::Continue), CopyAction::CopyPage(0));
    assert_eq!(c.step(CopyEvent::Continue), CopyAction::VerifyRam);
    assert_eq!(c.step(CopyEvent::RamCrc(2)), CopyAction::CopyPage(0));
    assert_eq!(c.step(CopyEvent::Continue), CopyAction::VerifyRam);
    assert_eq!(c.step(CopyEvent::RamCrc(2)), CopyAction::CopyPage(0));
    assert_eq!(c.step(CopyEvent::Continue), CopyAction::VerifyRam);
    assert_eq!(c.step(CopyEvent::RamCrc(2)), CopyAction::Reset);
}

#[test]
fn copy_of_empty_image_only_verifies() {
    let mut c = CopyToRam::new(0, 0, 0x2000);
    assert_eq!(c.step(CopyEvent::Continue), CopyAction::VerifyRam);
    assert_eq!(c.step(CopyEvent::RamCrc(0)), CopyAction::HandOff);
}
