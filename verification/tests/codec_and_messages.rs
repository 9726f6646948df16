use binfile::codec::{u16_from_be_bytes, u16_to_be_bytes, u64_from_be_bytes, u64_to_be_bytes};
use binfile::errors::{dec_string, hex_string, BinFileError};
use binfile::header::encode_header;

#[test]
fn u64_codec_round_trip() {
    let bytes = u64_to_be_bytes(0x0102030405060708);
    assert_eq!(bytes, vec![1, 2, 3, 4, 5, 6, 7, 8]);
    assert_eq!(u64_from_be_bytes(&bytes), 0x0102030405060708);
    assert_eq!(u64_to_be_bytes(0), vec![0; 8]);
    assert_eq!(u64_to_be_bytes(u64::MAX), vec![0xff; 8]);
    assert_eq!(u64_from_be_bytes(b"MYMAGIC!"), 0x4D594D4147494321);
}

#[test]
fn u16_codec_round_trip() {
    let bytes = u16_to_be_bytes(0x0100);
    assert_eq!(bytes, vec![1, 0]);
    assert_eq!(u16_from_be_bytes(&bytes), 256);
    assert_eq!(u16_to_be_bytes(u16::MAX), vec![0xff, 0xff]);
}

#[test]
fn header_layout() {
    let header = encode_header(0x4D594D4147494321, 1);
    assert_eq!(header, b"MYMAGIC!\x00\x01");
    let header = encode_header(u64::MAX, u16::MAX);
    assert_eq!(header, vec![0xff; 10]);
}

#[test]
fn hex_rendering() {
    assert_eq!(hex_string(0), "0");
    assert_eq!(hex_string(15), "f");
    assert_eq!(hex_string(16), "10");
    assert_eq!(hex_string(0xdead_beef), "deadbeef");
    assert_eq!(hex_string(u64::MAX), "ffffffffffffffff");
}

#[test]
fn dec_rendering() {
    assert_eq!(dec_string(0), "0");
    assert_eq!(dec_string(9), "9");
    assert_eq!(dec_string(10), "10");
    assert_eq!(dec_string(256), "256");
    assert_eq!(dec_string(u16::MAX), "65535");
}

#[test]
fn invalid_magic_message() {
    let err = BinFileError::InvalidMagic {
        filename: "target/test4".to_string(),
        expected: 0xFFFFFF_FFFFFF,
        actual: 0x4D594D4147494321,
    };
    assert_eq!(
        err.message(),
        "invalid magic number 0x4d594d4147494321 instead of 0xffffffffffff in file 'target/test4'"
    );
}

#[test]
fn invalid_version_message() {
    let err = BinFileError::InvalidVersion {
        filename: "target/test5".to_string(),
        expected: 0x0100,
        actual: 1,
    };
    assert_eq!(
        err.message(),
        "invalid version 1 instead of 256 in file 'target/test5'"
    );
}
