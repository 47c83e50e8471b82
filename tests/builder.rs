use abc_boot::binary::{is_likely_valid_binary_buf, BinaryFileError, InstructionStats};
use abc_boot::builder::{
    calc_crc, generate_buffer, read_image_file, set_buf_from_to, GenerateError, PayloadCheck,
    ReadError,
};
use abc_boot::cli::WriteArguments;
use abc_boot::layout::{
    FLASH_SIZE, METADATA_1_ADDR, METADATA_2_ADDR, METADATA_IMAGE_DATA_OFFSET, NUMBER_OF_IMAGES,
    SLOT_1_ADDR, SLOT_2_ADDR, SLOT_3_ADDR, SLOT_SIZE,
};
use abc_boot::metadata::{struct_to_bytes, ImageMetadata};

const MNEMONICS: [&str; 16] = [
    "movs", "ldr", "str", "adds", "subs", "cmp", "bne", "beq", "bl", "bx", "push", "pop", "mov",
    "lsls", "orrs", "ands",
];

/// objdump output for a plausible Thumb binary.
fn thumb_disassembly(lines: usize) -> Vec<u8> {
    let mut s = String::from("\n/tmp/x:     file format binary\n\n\nDisassembly of section .data:\n\n00000000 <.data>:\n");
    for i in 0..lines {
        s.push_str(&format!("{:8x}:\t{:04x}      \t{}\tr0, r1\n", i * 2, 0x2000 + i, MNEMONICS[i % 16]));
    }
    s.into_bytes()
}

/// objdump output for random bytes: mostly undefined.
fn random_disassembly(lines: usize) -> Vec<u8> {
    let mut s = String::new();
    for i in 0..lines {
        if i % 3 == 0 {
            s.push_str(&format!("{:8x}:\tf7ff e7fe \t; <UNDEFINED> instruction: 0xf7ffe7fe\n", i * 2));
        } else {
            s.push_str(&format!("{:8x}:\t{:04x}      \t{}\tr2, r3\n", i * 2, i, MNEMONICS[i % 16]));
        }
    }
    s.into_bytes()
}

/// objdump output for a run of zero bytes.
fn zero_disassembly(lines: usize) -> Vec<u8> {
    let mut s = String::new();
    for i in 0..lines {
        s.push_str(&format!("{:8x}:\t0000      \tmovs\tr0, r0\n", i * 2));
    }
    s.into_bytes()
}

fn good_stats() -> InstructionStats {
    InstructionStats::from_disassembly(&thumb_disassembly(400))
}

/// A raw binary whose vector table points into RAM.
fn ram_binary(len: usize) -> Vec<u8> {
    let mut v: Vec<u8> = (0..len).map(|i| (i % 251) as u8).collect();
    v[0..4].copy_from_slice(&0x2005_0000u32.to_le_bytes());
    v[4..8].copy_from_slice(&0x2000_0401u32.to_le_bytes());
    v
}

/// A raw binary linked to run from flash.
fn flash_binary(len: usize) -> Vec<u8> {
    let mut v = ram_binary(len);
    v[4..8].copy_from_slice(&0x0800_0401u32.to_le_bytes());
    v
}

fn generate_bootloader_binary(len: usize) -> Vec<u8> {
    (0..len).map(|i| (i % 7) as u8 + 1).collect()
}

fn all_good_three() -> [InstructionStats; 3] {
    [good_stats(), good_stats(), good_stats()]
}

fn all_good() -> [InstructionStats; 4] {
    [good_stats(), good_stats(), good_stats(), good_stats()]
}

#[test]
fn test_set_buf_from_to() {
    let mut target = vec![1u8; 10];
    let src = vec![2u8, 3u8, 4u8];

    set_buf_from_to(&mut target, 2, 6, &src).unwrap();

    assert_eq!(target, vec![1, 1, 2, 3, 4, 0, 1, 1, 1, 1]);
}

#[test]
fn test_set_buf_from_to_invalid() {
    let mut target = vec![1u8; 10];
    let src = vec![2u8, 3u8, 4u8];

    assert!(set_buf_from_to(&mut target, 8, 10, &src).is_err());
}

#[test]
fn set_buf_rejects_window_past_end_and_keeps_target() {
    let mut target = vec![1u8; 10];
    let src = vec![2u8];
    let e = set_buf_from_to(&mut target, 9, 11, &src).unwrap_err();
    assert_eq!((e.from, e.to, e.src_len, e.target_len), (9, 11, 1, 10));
    assert_eq!(target, vec![1u8; 10]);
    assert!(set_buf_from_to(&mut target, 6, 5, &vec![]).is_err());
    set_buf_from_to(&mut target, 10, 10, &vec![]).unwrap();
    assert_eq!(target, vec![1u8; 10]);
}

#[test]
fn reject_too_large_bootloader() {
    let bootloader = generate_bootloader_binary(METADATA_1_ADDR as usize + 1);
    let image_1 = vec![2u8; SLOT_SIZE as usize];
    let image_2 = vec![3u8; SLOT_SIZE as usize];
    let image_3 = vec![4u8; SLOT_SIZE as usize];

    let result = generate_buffer(&bootloader, &image_1, &image_2, &image_3, &all_good());
    assert!(result.is_err());
    assert_eq!(result.unwrap_err(), GenerateError::BootloaderTooLarge { len: METADATA_1_ADDR as usize + 1 });
}

#[test]
fn reject_too_large_image() {
    let bootloader = generate_bootloader_binary(METADATA_1_ADDR as usize - 5);
    let image_1 = vec![2u8; SLOT_SIZE as usize + 1];
    let image_2 = vec![3u8; SLOT_SIZE as usize];
    let image_3 = vec![4u8; SLOT_SIZE as usize];

    let result = generate_buffer(&bootloader, &image_1, &image_2, &image_3, &all_good());
    assert!(result.is_err());
    assert_eq!(result.unwrap_err(), GenerateError::ImageTooLarge { index: 0, len: SLOT_SIZE as usize + 1 });
}

#[test]
fn fail_invalid_random_binary() {
    let bootloader_bin = generate_bootloader_binary(METADATA_1_ADDR as usize);

    let real_binary = flash_binary(6000);
    let fake_binary: Vec<u8> = (0..6000u32).map(|i| (i.wrapping_mul(2654435761) >> 13) as u8).collect();
    let real_stats = good_stats();
    let fake_stats = InstructionStats::from_disassembly(&random_disassembly(3000));

    assert!(is_likely_valid_binary_buf(&real_binary, &real_stats).is_ok());
    assert!(is_likely_valid_binary_buf(&fake_binary, &fake_stats).is_err());

    let stats = [good_stats(), good_stats(), good_stats(), fake_stats];
    assert!(generate_buffer(&bootloader_bin, &real_binary, &real_binary, &fake_binary, &stats).is_err());
}

#[test]
fn fail_invalid_elf_binary() {
    let bootloader_bin = generate_bootloader_binary(METADATA_1_ADDR as usize);

    let real_binary = flash_binary(6000);
    let mut fake_binary = ram_binary(6000);
    fake_binary[0..4].copy_from_slice(&[0x7f, 0x45, 0x4c, 0x46]);

    assert!(is_likely_valid_binary_buf(&real_binary, &good_stats()).is_ok());
    assert!(is_likely_valid_binary_buf(&fake_binary, &good_stats()).is_err());

    assert!(generate_buffer(&bootloader_bin, &real_binary, &fake_binary, &real_binary, &all_good()).is_err());
}

#[test]
fn fail_invalid_same_instruction() {
    let bootloader_bin = generate_bootloader_binary(METADATA_1_ADDR as usize);

    let real_binary = flash_binary(6000);
    let fake_binary = vec![0x00; real_binary.len()];
    let fake_stats = InstructionStats::from_disassembly(&zero_disassembly(3000));

    assert!(is_likely_valid_binary_buf(&real_binary, &good_stats()).is_ok());
    assert!(is_likely_valid_binary_buf(&fake_binary, &fake_stats).is_err());

    let stats = [good_stats(), good_stats(), good_stats(), fake_stats];
    assert!(generate_buffer(&bootloader_bin, &real_binary, &real_binary, &fake_binary, &stats).is_err());
}

#[test]
fn rejects_elf_zeros_and_entry_outside_ram() {
    let bootloader = generate_bootloader_binary(100);
    let good = ram_binary(4000);

    let mut elf = ram_binary(4000);
    elf[0..4].copy_from_slice(&[0x7f, 0x45, 0x4c, 0x46]);
    assert_eq!(
        generate_buffer(&bootloader, &elf, &good, &good, &all_good()).unwrap_err(),
        GenerateError::InvalidImage { index: 0, error: BinaryFileError::HasELFHeader }
    );

    let zeros = vec![0u8; 4000];
    let zero_stats = InstructionStats::from_disassembly(&zero_disassembly(2000));
    let stats = [good_stats(), good_stats(), zero_stats, good_stats()];
    assert_eq!(
        generate_buffer(&bootloader, &good, &zeros, &good, &stats).unwrap_err(),
        GenerateError::InvalidImage {
            index: 1,
            error: BinaryFileError::NotEnoughUniqueInstructions { unique_instructions: 1 }
        }
    );

    for entry in [0x1FFF_FFFFu32, 0x200A_0000] {
        let mut outside = ram_binary(4000);
        outside[4..8].copy_from_slice(&entry.to_le_bytes());
        assert_eq!(
            generate_buffer(&bootloader, &good, &good, &outside, &all_good()).unwrap_err(),
            GenerateError::InvalidImage {
                index: 2,
                error: BinaryFileError::UnexpectedInterruptVectorTable { entrypoint_address: entry }
            }
        );
    }
}

#[test]
fn rejects_bad_bootloader_and_short_image() {
    let bootloader = generate_bootloader_binary(100);
    let good = ram_binary(4000);
    let stats = [InstructionStats::from_disassembly(&zero_disassembly(10)), good_stats(), good_stats(), good_stats()];
    assert_eq!(
        generate_buffer(&bootloader, &good, &good, &good, &stats).unwrap_err(),
        GenerateError::InvalidBootloader(BinaryFileError::NotEnoughUniqueInstructions { unique_instructions: 1 })
    );
    let short = vec![1u8, 2, 3];
    assert_eq!(
        generate_buffer(&bootloader, &good, &short, &good, &all_good()).unwrap_err(),
        GenerateError::ImageTooSmall { index: 1, len: 3 }
    );
}

fn verify_generated_buffer(
    bootloader: Vec<u8>, image_1: Vec<u8>, image_2: Vec<u8>, image_3: Vec<u8>,
) -> Result<(), String> {
    let image_info: Vec<(&Vec<u8>, u32)> =
        vec![(&image_1, SLOT_1_ADDR), (&image_2, SLOT_2_ADDR), (&image_3, SLOT_3_ADDR)];

    for (image_data, _) in image_info.iter() {
        if image_data.len() > SLOT_SIZE as usize {
            return Err(format!("Image size is too large: {}", image_data.len()));
        }
    }

    let buf = generate_buffer(&bootloader, &image_1, &image_2, &image_3, &all_good());
    let generated_buffer = buf.map_err(|e| format!("Failed to generate buffer: {:?}", e))?;

    if generated_buffer.len() != FLASH_SIZE as usize {
        return Err("Generated buffer size is incorrect".to_string());
    }
    for i in 0..bootloader.len() {
        if generated_buffer[i] != bootloader[i] {
            return Err("Bootloader mismatch in generated buffer".to_string());
        }
    }
    for i in bootloader.len()..METADATA_1_ADDR as usize {
        if generated_buffer[i] != 0u8 {
            return Err("Unexpected non-zero byte in metadata area".to_string());
        }
    }
    for &metadata_addr in &[METADATA_1_ADDR, METADATA_2_ADDR] {
        let first_bytes = [1, 0, 0, 0, 0, 0, 0, 0, 0, 0, 0, 0];
        assert_eq!(first_bytes.len() as u32, METADATA_IMAGE_DATA_OFFSET);
        for i in metadata_addr..metadata_addr + METADATA_IMAGE_DATA_OFFSET {
            if generated_buffer[i as usize] != first_bytes[(i - metadata_addr) as usize] {
                return Err("Metadata first bytes mismatch".to_string());
            }
        }
        if image_info.len() != NUMBER_OF_IMAGES {
            return Err("Incorrect number of images".to_string());
        }
        let mut image_metadata_buf: Vec<u8> = vec![];
        for (image_data, _) in image_info.iter() {
            let rec = ImageMetadata {
                version: 1,
                crc: calc_crc(image_data),
                boot_counter: 0,
                length: image_data.len() as u32,
            };
            image_metadata_buf.extend_from_slice(&rec.version.to_le_bytes());
            image_metadata_buf.extend_from_slice(&rec.crc.to_le_bytes());
            image_metadata_buf.extend_from_slice(&rec.boot_counter.to_le_bytes());
            image_metadata_buf.extend_from_slice(&rec.length.to_le_bytes());
        }
        for i in 0..image_metadata_buf.len() {
            let at = (metadata_addr + METADATA_IMAGE_DATA_OFFSET) as usize + i;
            if image_metadata_buf[i] != generated_buffer[at] {
                return Err(format!("Image metadata mismatch in generated buffer at {:#x}", at));
            }
        }
        for i in metadata_addr as usize + 64..(metadata_addr + 0x2000) as usize {
            if generated_buffer[i] != 0 {
                return Err("Unexpected non-zero byte after metadata".to_string());
            }
        }
    }
    for i in 0..NUMBER_OF_IMAGES {
        let (image_data, image_addr) = image_info[i];
        if i > 0 {
            let (_, prev_image_addr) = image_info[i - 1];
            if image_addr != prev_image_addr + SLOT_SIZE {
                return Err("Image address mismatch".to_string());
            }
        }
        for j in 0..image_data.len() {
            if generated_buffer[(image_addr + j as u32) as usize] != image_data[j] {
                return Err("Image data mismatch in generated buffer".to_string());
            }
        }
        for j in image_data.len()..SLOT_SIZE as usize {
            if generated_buffer[(image_addr + j as u32) as usize] != 0u8 {
                return Err("Unexpected non-zero byte in image slot area".to_string());
            }
        }
    }
    for i in SLOT_3_ADDR + SLOT_SIZE..FLASH_SIZE {
        if generated_buffer[i as usize] != 0u8 {
            return Err("Unexpected non-zero byte in flash area".to_string());
        }
    }
    Ok(())
}

#[test]
fn test_full_buffer() -> Result<(), String> {
    let bootloader = generate_bootloader_binary(6105);
    let real_binary = ram_binary(20000);
    let mut image_1 = vec![2u8; SLOT_SIZE as usize];
    image_1[..real_binary.len()].copy_from_slice(&real_binary);
    let mut image_2 = vec![3u8; SLOT_SIZE as usize];
    image_2[..real_binary.len()].copy_from_slice(&real_binary);
    let mut image_3 = vec![4u8; SLOT_SIZE as usize];
    image_3[..real_binary.len()].copy_from_slice(&real_binary);

    verify_generated_buffer(bootloader, image_1, image_2, image_3)
}

#[test]
fn test_partial_buffers() -> Result<(), String> {
    let bootloader = generate_bootloader_binary(METADATA_1_ADDR as usize - 5);
    let real_binary = ram_binary(20000);

    let mut image_1 = vec![2u8; real_binary.len() + 12345];
    image_1[..real_binary.len()].copy_from_slice(&real_binary);

    let mut image_2 = vec![3u8; SLOT_SIZE as usize];
    image_2[..real_binary.len()].copy_from_slice(&real_binary);

    let mut image_3 = vec![4u8; 319581];
    image_3[..real_binary.len()].copy_from_slice(&real_binary);

    verify_generated_buffer(bootloader, image_1, image_2, image_3)
}

#[test]
fn written_image_reads_back_clean() {
    let bootloader = generate_bootloader_binary(3000);
    let i1 = ram_binary(1000);
    let i2 = ram_binary(70000);
    let i3 = ram_binary(SLOT_SIZE as usize);
    let data = generate_buffer(&bootloader, &i1, &i2, &i3, &all_good()).unwrap();
    let report = read_image_file(&data).unwrap();
    assert!(report.is_consistent(&data));
    assert_eq!(report.metadata[0], report.metadata[1]);
    assert!(report.metadata[0].is_valid());
    assert_eq!(report.payloads[1], PayloadCheck::Checked { crc: calc_crc(&i2) });
    assert!(report.accepts(&data, &[good_stats(), good_stats(), good_stats()]));
    let zero_stats = InstructionStats::from_disassembly(&zero_disassembly(100));
    assert!(!report.accepts(&data, &[good_stats(), zero_stats, good_stats()]));
    assert_eq!(
        &data[METADATA_1_ADDR as usize..METADATA_1_ADDR as usize + 64],
        &struct_to_bytes(&report.metadata[0])[..]
    );
}

#[test]
fn reader_reports_damage() {
    let bootloader = generate_bootloader_binary(3000);
    let i1 = ram_binary(1000);
    let mut data = generate_buffer(&bootloader, &i1, &i1, &i1, &all_good()).unwrap();
    data[SLOT_2_ADDR as usize + 20] ^= 0xff;
    let report = read_image_file(&data).unwrap();
    assert!(!report.is_consistent(&data));
    assert_ne!(report.payloads[1], PayloadCheck::Checked { crc: calc_crc(&i1) });
    assert!(!report.accepts(&data, &all_good_three()));

    let mut data2 = generate_buffer(&bootloader, &i1, &i1, &i1, &all_good()).unwrap();
    data2[METADATA_2_ADDR as usize + 3] ^= 1;
    let report = read_image_file(&data2).unwrap();
    assert_ne!(report.metadata_crc[1], report.metadata[1].crc);
    assert!(!report.is_consistent(&data2));

    assert_eq!(read_image_file(&data[..100]).unwrap_err(), ReadError::WrongSize { len: 100 });
}

#[test]
fn missing_images_default_to_first() {
    let args = WriteArguments {
        bootloader_path: "b.bin".to_string(),
        image_1_path: "one.bin".to_string(),
        image_2_path: None,
        image_3_path: Some("three.bin".to_string()),
        output_path: "out.bin".to_string(),
    };
    let (a, b, c) = args.image_paths();
    assert_eq!((a.as_str(), b.as_str(), c.as_str()), ("one.bin", "one.bin", "three.bin"));
}
