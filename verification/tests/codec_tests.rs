use skylane_protocols::codec::{
    encode_message, write_array, write_string, write_u16, write_u32, BytesCursor, FdsCursor,
};
use skylane_protocols::types::Header;

#[test]
fn u32_wire_bytes_are_little_endian() {
    let mut out: Vec<u8> = Vec::new();
    write_u32(&mut out, 0x0102_0304);
    assert_eq!(out, vec![0x04, 0x03, 0x02, 0x01]);
}

#[test]
fn u16_wire_bytes_are_little_endian() {
    let mut out: Vec<u8> = Vec::new();
    write_u16(&mut out, 0x0A0B);
    assert_eq!(out, vec![0x0B, 0x0A]);
}

#[test]
fn u32_round_trip() {
    let mut out: Vec<u8> = Vec::new();
    write_u32(&mut out, 7);
    write_u32(&mut out, u32::MAX);
    let end = out.len();
    let mut cur = BytesCursor::new(out);
    assert_eq!(cur.read_u32(end), Some(7));
    assert_eq!(cur.read_u32(end), Some(u32::MAX));
    assert_eq!(cur.read_u32(end), None);
}

#[test]
fn read_u32_respects_message_end() {
    let mut out: Vec<u8> = Vec::new();
    write_u32(&mut out, 1);
    write_u32(&mut out, 2);
    let mut cur = BytesCursor::new(out);
    // The bound cuts the buffer off after the first integer.
    assert_eq!(cur.read_u32(4), Some(1));
    assert_eq!(cur.read_u32(4), None);
}

#[test]
fn string_wire_shape_and_round_trip() {
    let mut out: Vec<u8> = Vec::new();
    write_string(&mut out, &b"hello".to_vec());
    // Length 6 (text plus terminator), the text, the null, two padding bytes.
    assert_eq!(
        out,
        vec![6, 0, 0, 0, b'h', b'e', b'l', b'l', b'o', 0, 0, 0]
    );
    let end = out.len();
    let mut cur = BytesCursor::new(out);
    assert_eq!(cur.read_string(end), Some(b"hello".to_vec()));
    assert_eq!(cur.position(), end);
}

#[test]
fn empty_string_round_trip() {
    let mut out: Vec<u8> = Vec::new();
    write_string(&mut out, &Vec::new());
    assert_eq!(out, vec![1, 0, 0, 0, 0, 0, 0, 0]);
    let end = out.len();
    let mut cur = BytesCursor::new(out);
    assert_eq!(cur.read_string(end), Some(Vec::new()));
}

#[test]
fn string_without_terminator_is_rejected() {
    // Length prefix 2, but the byte where the null belongs is not null.
    let bytes = vec![2, 0, 0, 0, b'a', b'x', 0, 0];
    let end = bytes.len();
    let mut cur = BytesCursor::new(bytes);
    assert_eq!(cur.read_string(end), None);
    assert_eq!(cur.position(), 0);
}

#[test]
fn string_with_zero_length_prefix_is_rejected() {
    let bytes = vec![0, 0, 0, 0];
    let end = bytes.len();
    let mut cur = BytesCursor::new(bytes);
    assert_eq!(cur.read_string(end), None);
}

#[test]
fn truncated_string_is_rejected() {
    // Length prefix says 6 but only two content bytes follow.
    let bytes = vec![6, 0, 0, 0, b'h', b'e'];
    let end = bytes.len();
    let mut cur = BytesCursor::new(bytes);
    assert_eq!(cur.read_string(end), None);
    assert_eq!(cur.position(), 0);
}

#[test]
fn array_wire_shape_and_round_trip() {
    let mut out: Vec<u8> = Vec::new();
    write_array(&mut out, &vec![0xAA, 0xBB]);
    assert_eq!(out, vec![2, 0, 0, 0, 0xAA, 0xBB, 0, 0]);
    let end = out.len();
    let mut cur = BytesCursor::new(out);
    assert_eq!(cur.read_array(end), Some(vec![0xAA, 0xBB]));
    assert_eq!(cur.position(), end);
}

#[test]
fn empty_array_round_trip() {
    let mut out: Vec<u8> = Vec::new();
    write_array(&mut out, &Vec::new());
    assert_eq!(out, vec![0, 0, 0, 0]);
    let end = out.len();
    let mut cur = BytesCursor::new(out);
    assert_eq!(cur.read_array(end), Some(Vec::new()));
}

#[test]
fn truncated_array_is_rejected() {
    // Length prefix says 5 but only one data byte follows.
    let bytes = vec![5, 0, 0, 0, 0xAA];
    let end = bytes.len();
    let mut cur = BytesCursor::new(bytes);
    assert_eq!(cur.read_array(end), None);
    assert_eq!(cur.position(), 0);
}

#[test]
fn header_round_trip() {
    let payload = vec![1, 2, 3, 4];
    let msg = encode_message(0x11, 0x22, &payload);
    assert_eq!(msg.len(), 12);
    let mut cur = BytesCursor::new(msg);
    let header = cur.read_header().expect("header must parse");
    assert_eq!(
        header,
        Header { object_id: 0x11, opcode: 0x22, size: 12 }
    );
    assert_eq!(cur.position(), 8);
}

#[test]
fn short_buffer_has_no_header() {
    let mut cur = BytesCursor::new(vec![1, 2, 3]);
    assert_eq!(cur.read_header(), None);
}

#[test]
fn fds_cursor_hands_out_handles_in_order() {
    let mut cur = FdsCursor::new(vec![3, 9]);
    assert_eq!(cur.read_fd(), Some(3));
    assert_eq!(cur.read_fd(), Some(9));
    assert_eq!(cur.read_fd(), None);
}

#[test]
fn skip_to_moves_the_position() {
    let mut cur = BytesCursor::new(vec![0; 16]);
    assert_eq!(cur.position(), 0);
    cur.skip_to(12);
    assert_eq!(cur.position(), 12);
    assert_eq!(cur.len(), 16);
}
