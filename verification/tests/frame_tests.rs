use fractal_worker::frame::{
    copy_range, decode_frame, encode_frame, push_all, push_be32, read_be32, FrameError,
    FrameHeader, HEADER_LEN,
};

#[test]
fn be32_writes_most_significant_byte_first() {
    let mut out = vec![9u8];
    push_be32(&mut out, 0x0102_0304);
    assert_eq!(out, vec![9, 1, 2, 3, 4]);
    push_be32(&mut out, u32::MAX);
    assert_eq!(&out[5..], &[255, 255, 255, 255]);
}

#[test]
fn be32_reads_what_was_written() {
    let bytes = [0u8, 0x12, 0x34, 0x56, 0x78, 0xff];
    assert_eq!(read_be32(&bytes, 1), 0x1234_5678);
    assert_eq!(read_be32(&bytes, 2), 0x3456_78ff);
    assert_eq!(read_be32(&38u32.to_be_bytes(), 0), 38);
}

#[test]
fn header_computes_total_from_both_sections() {
    let header = FrameHeader::new(38, 18).unwrap();
    assert_eq!(header.json_size(), 38);
    assert_eq!(header.total_size(), 56);
    assert_eq!(header.binary_size(), 18);
    assert_eq!(header.to_bytes(), vec![0, 0, 0, 56, 0, 0, 0, 38]);
    assert_eq!(HEADER_LEN, 8);
}

#[test]
fn header_refuses_empty_json_and_oversize() {
    assert_eq!(FrameHeader::new(0, 5), Err(FrameError::EmptyJson));
    assert_eq!(FrameHeader::new(0, 0), Err(FrameError::EmptyJson));
    assert_eq!(FrameHeader::new(1, u32::MAX as usize), Err(FrameError::TooLarge));
    assert_eq!(FrameHeader::new(u32::MAX as usize, 1), Err(FrameError::TooLarge));
    let largest = FrameHeader::new(1, u32::MAX as usize - 1).unwrap();
    assert_eq!(largest.total_size(), u32::MAX);
}

#[test]
fn header_parse_reads_both_fields() {
    let header = FrameHeader::parse(&[0, 0, 1, 0, 0, 0, 0, 255, 7, 7]).unwrap();
    assert_eq!(header.total_size(), 256);
    assert_eq!(header.json_size(), 255);
    assert_eq!(header.binary_size(), 1);
}

#[test]
fn header_parse_rejections() {
    assert_eq!(FrameHeader::parse(&[0, 0, 0, 1, 0, 0, 0]), Err(FrameError::Truncated));
    assert_eq!(FrameHeader::parse(&[]), Err(FrameError::Truncated));
    assert_eq!(FrameHeader::parse(&[0, 0, 0, 4, 0, 0, 0, 0]), Err(FrameError::EmptyJson));
    assert_eq!(FrameHeader::parse(&[0, 0, 0, 0, 0, 0, 0, 0]), Err(FrameError::EmptyJson));
    assert_eq!(FrameHeader::parse(&[0, 0, 0, 4, 0, 0, 0, 5]), Err(FrameError::JsonExceedsTotal));
}

#[test]
fn frame_layout_is_lengths_json_binary() {
    let bytes = encode_frame(b"{}", &[1, 2, 3]).unwrap();
    assert_eq!(bytes, vec![0, 0, 0, 5, 0, 0, 0, 2, b'{', b'}', 1, 2, 3]);
}

#[test]
fn frame_without_binary_has_equal_lengths() {
    let bytes = encode_frame(b"[1]", &[]).unwrap();
    assert_eq!(bytes, vec![0, 0, 0, 3, 0, 0, 0, 3, b'[', b'1', b']']);
}

#[test]
fn frame_round_trip() {
    let json = b"{\"a\":1}".to_vec();
    let binary: Vec<u8> = (0..=255u8).collect();
    let bytes = encode_frame(&json, &binary).unwrap();
    assert_eq!(bytes.len(), 8 + json.len() + binary.len());
    let total = u32::from_be_bytes([bytes[0], bytes[1], bytes[2], bytes[3]]) as usize;
    let json_size = u32::from_be_bytes([bytes[4], bytes[5], bytes[6], bytes[7]]) as usize;
    assert_eq!(total, json_size + binary.len());
    let frame = decode_frame(&bytes).unwrap();
    assert_eq!(frame.json, json);
    assert_eq!(frame.binary, binary);
    assert_eq!(encode_frame(&frame.json, &frame.binary).unwrap(), bytes);
}

#[test]
fn frame_encode_rejections() {
    assert_eq!(encode_frame(b"", &[1]).unwrap_err(), FrameError::EmptyJson);
    assert_eq!(encode_frame(b"", &[]).unwrap_err(), FrameError::EmptyJson);
}

#[test]
fn frame_decode_rejections() {
    assert_eq!(decode_frame(&[0, 0, 0]).unwrap_err(), FrameError::Truncated);
    assert_eq!(decode_frame(&[0, 0, 0, 2, 0, 0, 0, 0, 1, 2]).unwrap_err(), FrameError::EmptyJson);
    assert_eq!(
        decode_frame(&[0, 0, 0, 1, 0, 0, 0, 2, b'{', b'}']).unwrap_err(),
        FrameError::JsonExceedsTotal
    );
    assert_eq!(
        decode_frame(&[0, 0, 0, 3, 0, 0, 0, 2, b'{', b'}']).unwrap_err(),
        FrameError::LengthMismatch
    );
    assert_eq!(
        decode_frame(&[0, 0, 0, 2, 0, 0, 0, 2, b'{', b'}', 0]).unwrap_err(),
        FrameError::LengthMismatch
    );
}

#[test]
fn copy_range_and_push_all() {
    let bytes = [10u8, 11, 12, 13, 14];
    assert_eq!(copy_range(&bytes, 1, 4), vec![11, 12, 13]);
    assert_eq!(copy_range(&bytes, 2, 2), Vec::<u8>::new());
    let mut out = vec![1u8];
    push_all(&mut out, &bytes);
    assert_eq!(out, vec![1, 10, 11, 12, 13, 14]);
}
