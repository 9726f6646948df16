use binfile::codec::u64_from_be_bytes;
use binfile::errors::BinFileError;
use binfile::header::{check_header, check_magic, check_version, encode_header, payload_of};

fn my_magic() -> u64 {
    u64_from_be_bytes(b"MYMAGIC!")
}

fn file_bytes(magic: u64, version: u16, payload: &[u8]) -> Vec<u8> {
    let mut content = encode_header(magic, version);
    content.extend_from_slice(payload);
    content
}

#[test]
fn create() {
    let mut file = encode_header(my_magic(), 1);
    file.extend_from_slice(b"hello world");
    assert_eq!(file, b"MYMAGIC!\x00\x01hello world");
}

#[test]
fn create_new() {
    let mut file = encode_header(my_magic(), 1);
    file.extend_from_slice(b"hello world");
    assert_eq!(file, b"MYMAGIC!\x00\x01hello world");
}

#[test]
fn open_ro() {
    let file = file_bytes(my_magic(), 1, b"hello world");
    assert!(check_header(my_magic(), 1, &file[0..10], "target/test3").is_ok());
    let buf = payload_of(&file);
    assert_eq!(buf.len(), 11);
    assert_eq!(buf, b"hello world");
}

#[test]
fn open_rw() {
    let mut file = file_bytes(my_magic(), 1, b"hello world");
    assert!(check_header(my_magic(), 1, &file[0..10], "target/test5").is_ok());
    let buf = payload_of(&file);
    assert_eq!(buf.len(), 11);
    assert_eq!(buf, b"hello world");
    file.extend_from_slice(b"\nand hello again");
    assert!(check_header(my_magic(), 1, &file[0..10], "target/test5").is_ok());
    assert_eq!(payload_of(&file), b"hello world\nand hello again");
}

#[test]
fn open_wrong_magic() {
    let file = file_bytes(my_magic(), 1, b"hello world");
    let err = check_header(0xFFFFFF_FFFFFF, 1, &file[0..10], "target/test4").unwrap_err();
    assert_eq!(
        err,
        BinFileError::InvalidMagic {
            filename: "target/test4".to_string(),
            expected: 0xFFFFFF_FFFFFF,
            actual: my_magic(),
        }
    );
}

#[test]
fn open_wrong_version() {
    let file = file_bytes(my_magic(), 1, b"hello world");
    let err = check_header(my_magic(), 0x0100, &file[0..10], "target/test5").unwrap_err();
    assert_eq!(
        err,
        BinFileError::InvalidVersion {
            filename: "target/test5".to_string(),
            expected: 0x0100,
            actual: 1,
        }
    );
}

#[test]
fn magic_checked_before_version() {
    // Both fields are wrong: the magic mismatch is the one reported.
    let file = file_bytes(my_magic(), 7, b"");
    let err = check_header(0x1122334455667788, 1, &file[0..10], "f").unwrap_err();
    assert!(matches!(err, BinFileError::InvalidMagic { .. }));
}

#[test]
fn check_magic_alone() {
    let file = file_bytes(my_magic(), 1, b"");
    assert!(check_magic(my_magic(), &file[0..8], "f").is_ok());
    let err = check_magic(1, &file[0..8], "f").unwrap_err();
    assert_eq!(
        err,
        BinFileError::InvalidMagic {
            filename: "f".to_string(),
            expected: 1,
            actual: my_magic(),
        }
    );
}

#[test]
fn check_version_alone() {
    let file = file_bytes(my_magic(), 513, b"");
    assert!(check_version(513, &file[8..10], "f").is_ok());
    let err = check_version(2, &file[8..10], "f").unwrap_err();
    assert_eq!(
        err,
        BinFileError::InvalidVersion {
            filename: "f".to_string(),
            expected: 2,
            actual: 513,
        }
    );
}

#[test]
fn empty_payload() {
    let file = encode_header(my_magic(), 1);
    assert_eq!(file.len(), 10);
    assert!(check_header(my_magic(), 1, &file, "f").is_ok());
    assert_eq!(payload_of(&file), b"");
}

#[test]
fn scenario_twenty_one_bytes() {
    // magic = the eight ASCII bytes "MYMAGIC!", version = 1, payload
    // "hello world": the file is exactly 21 bytes, and reading to the end
    // from offset ten returns exactly the 11 payload bytes.
    let file = file_bytes(my_magic(), 1, b"hello world");
    assert_eq!(file.len(), 21);
    assert_eq!(file, b"MYMAGIC!\x00\x01hello world");
    assert!(check_header(my_magic(), 1, &file[0..10], "f").is_ok());
    let payload = payload_of(&file);
    assert_eq!(payload.len(), 11);
    assert_eq!(payload, b"hello world");
}
