use cl::codec::{le_u32_of, le_u64_of, le_u64s_of, split_on, text_content, text_string};

#[test]
fn one_byte_value() {
    assert_eq!(le_u32_of(&vec![1, 0, 0, 0]), 1);
}

#[test]
fn little_endian_order() {
    assert_eq!(le_u32_of(&vec![0x78, 0x56, 0x34, 0x12]), 0x12345678);
}

#[test]
fn empty_buffer_is_zero() {
    assert_eq!(le_u32_of(&vec![]), 0);
    assert_eq!(le_u64_of(&vec![]), 0);
}

#[test]
fn short_buffer_reads_what_is_there() {
    assert_eq!(le_u32_of(&vec![0xAB, 0xCD]), 0xCDAB);
}

#[test]
fn long_buffer_wraps_at_register_width() {
    assert_eq!(le_u32_of(&vec![0xFF; 8]), 0xFFFF_FFFF);
    assert_eq!(le_u32_of(&vec![1, 0, 0, 0, 0xAB]), 1);
}

#[test]
fn sixty_four_bit_read() {
    assert_eq!(
        le_u64_of(&vec![0xEF, 0xCD, 0xAB, 0x89, 0x67, 0x45, 0x23, 0x01]),
        0x0123_4567_89AB_CDEF
    );
}

#[test]
fn packed_array_read() {
    let mut bytes = vec![0u8; 16];
    bytes[0] = 3;
    bytes[8] = 7;
    assert_eq!(le_u64s_of(&bytes), vec![3, 7]);
}

#[test]
fn packed_array_ignores_trailing_partial_chunk() {
    let mut bytes = vec![0u8; 20];
    bytes[0] = 5;
    bytes[8] = 9;
    bytes[16] = 0xFF;
    assert_eq!(le_u64s_of(&bytes), vec![5, 9]);
}

#[test]
fn text_is_utf8_decoded() {
    assert_eq!(text_string(&b"OpenCL\0".to_vec()), "OpenCL");
    assert_eq!(text_string(&b"\0".to_vec()), "");
    assert_eq!(text_string(&vec![0xC3, 0xA9, 0x00]), "\u{e9}");
    assert_eq!(text_string(&vec![0xE2, 0x82, 0xAC, 0x00]), "\u{20ac}");
}

#[test]
fn text_content_strips_the_terminator() {
    assert_eq!(text_content(&b"abc\0".to_vec()), b"abc".to_vec());
    assert_eq!(text_content(&b"\0".to_vec()), Vec::<u8>::new());
}

#[test]
fn split_keeps_every_piece() {
    let pieces = split_on(&b"a bc".to_vec(), b' ');
    assert_eq!(pieces, vec![b"a".to_vec(), b"bc".to_vec()]);
}

#[test]
fn split_of_empty_is_one_empty_piece() {
    let pieces = split_on(&Vec::new(), b' ');
    assert_eq!(pieces, vec![Vec::<u8>::new()]);
}

#[test]
fn split_keeps_empty_pieces_between_separators() {
    let pieces = split_on(&b" x ".to_vec(), b' ');
    assert_eq!(
        pieces,
        vec![Vec::<u8>::new(), b"x".to_vec(), Vec::<u8>::new()]
    );
}
