use tee_oprf::{be_bytes_to_u32, decode_frame, encode_frame, frame_round_trip, u32_to_be_bytes, OprfError};

fn round_trip_of_len(len: usize) {
    let payload: Vec<u8> = (0..len).map(|i| (i % 251) as u8).collect();
    let frame = encode_frame(&payload);
    assert_eq!(frame.len(), payload.len() + 4);
    assert_eq!(&frame[4..], &payload[..]);
    assert_eq!(decode_frame(&frame).unwrap(), payload);
    assert_eq!(frame_round_trip(&payload), payload);
}

#[test]
fn test_frame_round_trip_empty() {
    round_trip_of_len(0);
}

#[test]
fn test_frame_round_trip_one_byte() {
    round_trip_of_len(1);
}

#[test]
fn test_frame_round_trip_page() {
    round_trip_of_len(4096);
}

#[test]
fn test_frame_round_trip_million() {
    round_trip_of_len(1_000_000);
}

#[test]
fn test_frame_prefix_is_big_endian_length() {
    let payload = vec![0u8; 0x0102];
    let frame = encode_frame(&payload);
    assert_eq!(&frame[0..4], &[0u8, 0, 1, 2]);
}

#[test]
fn test_decode_rejects_short_buffer() {
    assert!(matches!(decode_frame(&vec![]), Err(OprfError::Transport(_))));
    assert!(matches!(decode_frame(&vec![0u8, 0, 0]), Err(OprfError::Transport(_))));
}

#[test]
fn test_decode_rejects_wrong_length() {
    // Prefix declares 5 bytes, buffer carries 4.
    let frame = vec![0u8, 0, 0, 5, 1, 2, 3, 4];
    assert!(matches!(decode_frame(&frame), Err(OprfError::Transport(_))));
    // Prefix declares 2 bytes, buffer carries 3.
    let frame = vec![0u8, 0, 0, 2, 1, 2, 3];
    assert!(matches!(decode_frame(&frame), Err(OprfError::Transport(_))));
}

#[test]
fn test_u32_big_endian_bytes() {
    assert_eq!(u32_to_be_bytes(0xdeadbeef), vec![0xdeu8, 0xad, 0xbe, 0xef]);
    assert_eq!(be_bytes_to_u32(&[0xdeu8, 0xad, 0xbe, 0xef]), 0xdeadbeef);
    assert_eq!(u32_to_be_bytes(7), vec![0u8, 0, 0, 7]);
    assert_eq!(be_bytes_to_u32(&[0u8, 0, 0, 0]), 0);
}
