use jdwp_client::protocol::JdwpError;
use jdwp_client::reader::{
    read_i16, read_i32, read_i64, read_i8, read_string, read_u16, read_u32, read_u64, read_u8,
    write_i16, write_i32, write_i64, write_i8, write_string, write_u16, write_u32, write_u64,
    write_u8,
};

#[test]
fn scalars_round_trip() {
    let mut buf = Vec::new();
    write_u8(&mut buf, 0xAB);
    write_u16(&mut buf, 0xBEEF);
    write_u32(&mut buf, 0xDEADBEEF);
    write_u64(&mut buf, 0x0123_4567_89AB_CDEF);
    write_i8(&mut buf, -5);
    write_i16(&mut buf, -12345);
    write_i32(&mut buf, i32::MIN);
    write_i64(&mut buf, -1);
    write_string(&mut buf, "héllo");
    buf.push(0x77);

    let mut cur: &[u8] = &buf;
    assert_eq!(read_u8(&mut cur).unwrap(), 0xAB);
    assert_eq!(read_u16(&mut cur).unwrap(), 0xBEEF);
    assert_eq!(read_u32(&mut cur).unwrap(), 0xDEADBEEF);
    assert_eq!(read_u64(&mut cur).unwrap(), 0x0123_4567_89AB_CDEF);
    assert_eq!(read_i8(&mut cur).unwrap(), -5);
    assert_eq!(read_i16(&mut cur).unwrap(), -12345);
    assert_eq!(read_i32(&mut cur).unwrap(), i32::MIN);
    assert_eq!(read_i64(&mut cur).unwrap(), -1);
    assert_eq!(read_string(&mut cur).unwrap(), "héllo");
    assert_eq!(cur, &[0x77]);
}

#[test]
fn writers_are_big_endian() {
    let mut buf = Vec::new();
    write_u32(&mut buf, 0x12345678);
    assert_eq!(buf, vec![0x12, 0x34, 0x56, 0x78]);
    let mut buf = Vec::new();
    write_u64(&mut buf, 0x0102030405060708);
    assert_eq!(buf, vec![1, 2, 3, 4, 5, 6, 7, 8]);
    let mut buf = Vec::new();
    write_i16(&mut buf, -2);
    assert_eq!(buf, vec![0xff, 0xfe]);
    let mut buf = Vec::new();
    write_string(&mut buf, "ab");
    assert_eq!(buf, vec![0, 0, 0, 2, b'a', b'b']);
}

#[test]
fn readers_are_big_endian() {
    let bytes = [0x12u8, 0x34, 0x56, 0x78];
    let mut cur: &[u8] = &bytes;
    assert_eq!(read_u32(&mut cur).unwrap(), 0x12345678);
    assert!(cur.is_empty());
    let bytes = [0xffu8, 0xff, 0xff, 0xfe];
    let mut cur: &[u8] = &bytes;
    assert_eq!(read_i32(&mut cur).unwrap(), -2);
}

#[test]
fn readers_refuse_to_over_read() {
    let bytes = [1u8, 2, 3];
    let mut cur: &[u8] = &bytes;
    assert!(matches!(read_u32(&mut cur), Err(JdwpError::Protocol(_))));
    assert_eq!(cur, &[1, 2, 3]);
    assert!(matches!(read_u64(&mut cur), Err(JdwpError::Protocol(_))));
    assert!(matches!(read_i64(&mut cur), Err(JdwpError::Protocol(_))));
    let empty: [u8; 0] = [];
    let mut cur: &[u8] = &empty;
    assert!(matches!(read_u8(&mut cur), Err(JdwpError::Protocol(_))));
    assert!(matches!(read_i8(&mut cur), Err(JdwpError::Protocol(_))));
    let one = [1u8];
    let mut cur: &[u8] = &one;
    assert!(matches!(read_u16(&mut cur), Err(JdwpError::Protocol(_))));
    assert!(matches!(read_i16(&mut cur), Err(JdwpError::Protocol(_))));
}

#[test]
fn string_longer_than_its_bytes_is_refused() {
    let bytes = [0u8, 0, 0, 5, b'a', b'b'];
    let mut cur: &[u8] = &bytes;
    assert!(matches!(read_string(&mut cur), Err(JdwpError::Protocol(_))));
}

#[test]
fn string_with_bad_utf8_is_refused() {
    let bytes = [0u8, 0, 0, 2, 0xC3, 0x28];
    let mut cur: &[u8] = &bytes;
    assert!(matches!(read_string(&mut cur), Err(JdwpError::Protocol(_))));
}

#[test]
fn empty_string_reads_back() {
    let bytes = [0u8, 0, 0, 0, 9];
    let mut cur: &[u8] = &bytes;
    assert_eq!(read_string(&mut cur).unwrap(), "");
    assert_eq!(cur, &[9]);
}

#[test]
fn failed_string_read_stops_within_its_length_prefix() {
    let short = [0u8, 0];
    let mut cur: &[u8] = &short;
    assert!(read_string(&mut cur).is_err());
    assert_eq!(cur, &[0, 0]);
    let bytes = [0u8, 0, 0, 5, b'a', b'b'];
    let mut cur: &[u8] = &bytes;
    assert!(read_string(&mut cur).is_err());
    assert_eq!(cur, &[b'a', b'b']);
}
