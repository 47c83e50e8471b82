use abc_boot::binary::{
    is_likely_valid_binary_buf, is_likely_valid_os_image_buf, split_objdump_instruction_line,
    BinaryFileError, InstructionStats,
};
use abc_boot::layout::{RAM_ADDR, RAM_SIZE};

fn stats_of(text: &str) -> InstructionStats {
    InstructionStats::from_disassembly(text.as_bytes())
}

fn flash_binary() -> Vec<u8> {
    let mut v = vec![0u8; 64];
    v[4..8].copy_from_slice(&0x0800_01C1u32.to_le_bytes());
    v
}

#[test]
fn detect_invalid_binary() {
    let mut text = String::new();
    for i in 0..300 {
        if i % 4 == 0 {
            text.push_str(&format!("{:8x}:\tffff      \t; <UNDEFINED> instruction: 0xffff\n", i * 2));
        } else {
            text.push_str(&format!("{:8x}:\t{:04x}      \tadds\tr0, #1\n", i * 2, i));
        }
    }
    let results = stats_of(&text);
    assert!(results.undefined_count > 10);
    assert!(results.undefined_count as f64 / (results.total_instructions() as f64) > 0.01);
}

#[test]
fn detect_raw_binary() {
    let mut text = String::new();
    for i in 0..1000 {
        text.push_str(&format!("{:8x}:\t{:04x}      \tmov{}\tr0, r1\n", i * 2, i, i % 20));
    }
    text.push_str("     7d0:\tffff      \t; <UNDEFINED> instruction: 0xffff\n");
    let results = stats_of(&text);
    assert!(results.undefined_count < 10);
    assert!(results.undefined_count as f64 / (results.total_instructions() as f64) < 0.01);
    assert_eq!(results.unique_instruction_count(), 20);
    assert_eq!(results.total_instructions(), 1001);
}

#[test]
fn wrong_address_in_flash() {
    let binary_data = flash_binary();
    let result = is_likely_valid_os_image_buf(&binary_data);
    assert!(result.is_err());
    assert!(matches!(
        result.unwrap_err(),
        BinaryFileError::UnexpectedInterruptVectorTable { entrypoint_address: _ }
    ));
}

#[test]
fn wrong_address_outside_ram() {
    let mut binary_data = flash_binary();
    const ENTRY_ADDR: u32 = RAM_ADDR + RAM_SIZE + 4;
    let nbytes = ENTRY_ADDR.to_le_bytes();
    binary_data[4..(4 + 4)].copy_from_slice(&nbytes[..4]);

    let result = is_likely_valid_os_image_buf(&binary_data.to_vec());
    assert!(result.is_err());
    match result.unwrap_err() {
        BinaryFileError::UnexpectedInterruptVectorTable { entrypoint_address } => {
            assert_eq!(entrypoint_address, ENTRY_ADDR);
        }
        _ => {
            panic!("Unexpected error type");
        }
    }
}

#[test]
fn correct_address_in_ram() {
    let mut binary_data = flash_binary();
    binary_data[4..8].copy_from_slice(&0x2000_01C1u32.to_le_bytes());
    let result = is_likely_valid_os_image_buf(&binary_data);
    assert!(result.is_ok());
    let mut edge = binary_data.clone();
    edge[4..8].copy_from_slice(&(RAM_ADDR + RAM_SIZE - 1).to_le_bytes());
    assert!(is_likely_valid_os_image_buf(&edge).is_ok());
    edge[4..8].copy_from_slice(&RAM_ADDR.to_le_bytes());
    assert!(is_likely_valid_os_image_buf(&edge).is_ok());
}

#[test]
fn split_lines_like_objdump() {
    let (a, b, c) = split_objdump_instruction_line(b"   1c:\t4770      \tbx\tlr").unwrap();
    assert_eq!((a.as_slice(), b.as_slice(), c.as_slice()), (&b"1c"[..], &b"4770"[..], &b"bx"[..]));
    // A 32-bit encoding is written as two half-words; the mnemonic follows both.
    let (_, b, c) = split_objdump_instruction_line(b"   20:\tf000 f802 \tbl\t28").unwrap();
    assert_eq!((b.as_slice(), c.as_slice()), (&b"f000 f802"[..], &b"bl"[..]));
    let (_, b, c) = split_objdump_instruction_line(b"   24:\tf8d3 2004 \tldr.w\tr2, [r3, #4]").unwrap();
    assert_eq!((b.as_slice(), c.as_slice()), (&b"f8d3 2004"[..], &b"ldr.w"[..]));
    // A mnemonic made of hex letters is still the mnemonic.
    let (_, b, c) = split_objdump_instruction_line(b"   28:\t4408      \tadd\tr0, r1").unwrap();
    assert_eq!((b.as_slice(), c.as_slice()), (&b"4408"[..], &b"add"[..]));
    // Nothing after the encoding: no instruction.
    assert!(split_objdump_instruction_line(b"  2a:\t4770  ").is_none());
    assert!(split_objdump_instruction_line(b"  2a:\t4").is_none());
    assert!(split_objdump_instruction_line(b"00000000 <.data>:").is_none());
    assert!(split_objdump_instruction_line(b"Disassembly of section .data:").is_none());
    assert!(split_objdump_instruction_line(b"").is_none());
    assert!(split_objdump_instruction_line(b"  1C:\t4770 bx").is_none());
}

#[test]
fn stats_count_lines() {
    let s = stats_of("   0:\t2000      \tmovs\tr0, #0\r\n   2:\t2000      \tmovs\tr0, #0\n   4:\tffff      \t<UNDEFINED>\nheader line\n   6:\t4770      \tbx\tlr");
    assert_eq!(s.undefined_count, 1);
    assert_eq!(s.instruction_count, 3);
    assert_eq!(s.unique_instruction_count(), 2);
    assert_eq!(s.total_instructions(), 4);
    assert_eq!(s.mnemonics, vec![b"movs".to_vec(), b"bx".to_vec()]);
    let wide = stats_of("   0:\tf000 f802 \tbl\t8\n   4:\tf000 f804 \tbl\tc\n   8:\t4770      \tbx\tlr\n");
    assert_eq!(wide.unique_instruction_count(), 2);
    let empty = stats_of("");
    assert_eq!(empty.total_instructions(), 0);
}

#[test]
fn binary_heuristic_thresholds() {
    let payload = vec![1u8; 64];
    let mut text = String::new();
    for i in 0..100 {
        text.push_str(&format!("{:8x}:\t{:04x}      \top{}\tr0\n", i * 2, i, i % 15));
    }
    // Exactly one percent undefined is tolerated.
    text.push_str("  c8:\tffff      \t<UNDEFINED>\n");
    let s = stats_of(&text);
    assert_eq!(is_likely_valid_binary_buf(&payload, &s), Ok(()));
    text.push_str("  ca:\tffff      \t<UNDEFINED>\n");
    let s = stats_of(&text);
    assert_eq!(
        is_likely_valid_binary_buf(&payload, &s),
        Err(BinaryFileError::ManyUndefinedInstructions { total_instructions: 102, undefined_lines: 2 })
    );
    let few = stats_of("  0:\t2000      \top1\tr0\n  2:\t2000      \top2\tr0\n");
    assert_eq!(
        is_likely_valid_binary_buf(&payload, &few),
        Err(BinaryFileError::NotEnoughUniqueInstructions { unique_instructions: 2 })
    );
    assert_eq!(
        is_likely_valid_binary_buf(&[0x7f, 0x45, 0x4c, 0x46, 0, 0], &few),
        Err(BinaryFileError::HasELFHeader)
    );
}
