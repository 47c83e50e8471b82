use abc_boot::builder::calc_crc;
use abc_boot::crc::calc_crc32;
use abc_boot::metadata::{bytes_to_struct, Metadata};

#[test]
fn test_null() {
    let crc = calc_crc32(&[]);
    assert_eq!(crc, 0);
}

#[test]
fn test_crc_a() {
    let data: [u8; 8] = [0x61, 0x65, 0x6e, 0x67, 0x65, 0x6c, 0x6b, 0x65];
    let crc = calc_crc32(&data);
    assert_eq!(crc, 0x7909E7C4);
}

#[test]
fn test_crc() {
    let data: [u8; 4] = [0x00, 0x01, 0x02, 0x03];
    let crc = calc_crc32(&data);
    assert_eq!(crc, 0xD9331AA3);
}

#[test]
fn test_amogus() {
    let data: [u8; 6] = "amogus".as_bytes().try_into().expect("Failed to convert string to array");
    let crc = calc_crc32(&data);
    assert_eq!(crc, 0x438F5AB0);
}

#[test]
fn test_long_text() {
    let data : [u8; 387] = "I'd just like to interject for a moment. What you're refering to as Linux, is in fact, GNU/Linux, or as I've recently taken to calling it, GNU plus Linux. Linux is not an operating system unto itself, but rather another free component of a fully functioning GNU system made useful by the GNU corelibs, shell utilities and vital system components comprising a full OS as defined by POSIX.".as_bytes().try_into().expect("Failed to convert string to array");
    let crc = calc_crc32(&data);
    assert_eq!(crc, 0xCBBF20D6);
}

#[test]
fn test_erased_metadata() {
    let data = [0xffu8; 64];
    let metadata: Metadata = bytes_to_struct(&data);
    let crc = metadata.calc_crc();
    assert_ne!(crc, 0xffffffff);
    assert_ne!(crc, 0);
    assert!(!metadata.is_valid());
}

#[test]
fn test_zeroed_metadata() {
    let data = [0u8; 64];
    let metadata: Metadata = bytes_to_struct(&data);
    let crc = metadata.calc_crc();
    assert_ne!(crc, 0xffffffff);
    assert_ne!(crc, 0);
    assert!(!metadata.is_valid());
}

#[test]
fn test_crc_vec() {
    let data: Vec<u8> = vec![0x61, 0x65, 0x6e, 0x67, 0x65, 0x6c, 0x6b, 0x65];
    let crc = calc_crc(&data);
    assert_eq!(crc, 0x7909E7C4);
}

#[test]
fn crc_of_standard_check_string() {
    // The catalogue check value of CRC-32C.
    assert_eq!(calc_crc32(b"123456789"), 0xE3069283);
}

#[test]
fn crc_changes_with_any_single_byte() {
    let base: Vec<u8> = (0u8..32).collect();
    let reference = calc_crc32(&base);
    for i in 0..base.len() {
        let mut changed = base.clone();
        changed[i] ^= 0x01;
        assert_ne!(calc_crc32(&changed), reference);
    }
}
