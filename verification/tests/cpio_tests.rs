use solox::cpio::{has_magic, mem_difference, read_hex8_u32, Reader, HEADER_LEN};

fn header(file_size: u32, name: &[u8]) -> Vec<u8> {
    let mut v: Vec<u8> = Vec::new();
    v.extend_from_slice(b"070701");
    let fields: [u32; 13] = [1, 0o100644, 0, 0, 1, 0, file_size, 0, 0, 0, 0, name.len() as u32, 0];
    for f in fields.iter() {
        v.extend_from_slice(format!("{:08x}", f).as_bytes());
    }
    v.extend_from_slice(name);
    while v.len() % 4 != 0 {
        v.push(0);
    }
    v
}

#[test]
fn reads_eight_hex_digits() {
    assert_eq!(read_hex8_u32(b"00000BE4"), 3044);
    assert_eq!(read_hex8_u32(b"deadBEEF"), 0xDEAD_BEEF);
    assert_eq!(read_hex8_u32(b"ffffffff"), u32::MAX);
    assert_eq!(read_hex8_u32(b"00000000"), 0);
}

#[test]
fn non_hex_byte_stops_reading_after_shift() {
    // "12" then a non-digit: the value read so far has already been shifted.
    assert_eq!(read_hex8_u32(b"12G45678"), 0x120);
    assert_eq!(read_hex8_u32(b"Z0000000"), 0);
    assert_eq!(read_hex8_u32(b"0000001 "), 0x10);
}

#[test]
fn hex_round_trip_of_formatted_numbers() {
    for n in [0u32, 1, 0xA, 0x10, 0xBE4, 0x1234_5678, 0xFFFF_FFFF] {
        let s = format!("{:08x}", n);
        let mut a = [0u8; 8];
        a.copy_from_slice(s.as_bytes());
        assert_eq!(read_hex8_u32(&a), n);
    }
}

#[test]
fn byte_difference_like_c() {
    assert_eq!(mem_difference(&[0xFA], &[0xFA], 1), 0);
    assert!(mem_difference(&[0xEF], &[0xFE], 1) < 0);
    assert_eq!(mem_difference(b"Hello!", b"Hellp!", 6), b'o' as i32 - b'p' as i32);
    assert_eq!(mem_difference(b"abc", b"abd", 2), 0);
}

#[test]
fn magic_detection() {
    assert!(has_magic(b"070701rest"));
    assert!(!has_magic(b"070702rest"));
    assert!(!has_magic(b"0707"));
    assert!(!has_magic(b""));
}

#[test]
fn parses_first_entry_of_firmware_archive() {
    let mut archive = header(3044, b"m4-firmware.bin\0");
    let data_start = archive.len();
    archive.extend(std::iter::repeat(0xAB).take(3044));
    let reader = Reader::new(&archive, archive.len());
    assert_eq!(reader.archive_size(), archive.len());
    let entry = reader.parse_entry();
    assert_eq!(entry.file_name(), "m4-firmware.bin");
    assert_eq!(entry.file_size(), 3044);
    assert_eq!(entry.data_ptr(), 128);
    assert_eq!(entry.data_ptr(), data_start);
}

#[test]
fn data_offset_is_rounded_up_to_four() {
    // name "ab\0" (3 bytes): 110 + 3 = 113, rounded up to 116.
    let mut archive = header(5, b"ab\0");
    archive.extend(std::iter::repeat(0).take(32));
    let entry = Reader::new(&archive, archive.len()).parse_entry();
    assert_eq!(entry.data_ptr(), 116);
    assert_eq!(entry.file_size(), 5);
    // name of 14 bytes: 110 + 14 = 124, already aligned.
    let mut archive = header(0, b"0123456789abc\0");
    archive.extend(std::iter::repeat(0).take(32));
    let entry = Reader::new(&archive, archive.len()).parse_entry();
    assert_eq!(entry.data_ptr(), 124);
}

#[test]
fn raw_header_fields() {
    let archive = header(0xBE4, b"m4-firmware.bin\0");
    let reader = Reader::new(&archive, archive.len());
    let h = reader.raw_header();
    assert_eq!(&h.magic, b"070701");
    assert_eq!(&h.file_size, b"00000be4");
    assert_eq!(&h.file_name_size, b"00000010");
    assert_eq!(&h.mode, b"000081a4");
    assert_eq!(read_hex8_u32(&h.nlink), 1);
    assert!(archive.len() >= HEADER_LEN);
}
