use wallpaper_extractor::cursor::ByteCursor;
use wallpaper_extractor::error::TexError;

#[test]
fn new_cursor_stands_at_the_start() {
    let bytes = [1u8, 2, 3];
    let reader = ByteCursor::new(&bytes);
    assert_eq!(reader.tell(), 0);
    assert_eq!(reader.len(), 3);
}

#[test]
fn read_u8_moves_by_one() {
    let bytes = [0xABu8, 0xCD];
    let mut reader = ByteCursor::new(&bytes);
    assert_eq!(reader.read_u8(), Ok(0xAB));
    assert_eq!(reader.tell(), 1);
    assert_eq!(reader.read_u8(), Ok(0xCD));
    assert_eq!(reader.read_u8(), Err(TexError::TruncatedStream));
    assert_eq!(reader.tell(), 2);
}

#[test]
fn read_u32_is_little_endian() {
    let bytes = [0x78u8, 0x56, 0x34, 0x12, 0xFF, 0xFF, 0xFF, 0xFF, 1];
    let mut reader = ByteCursor::new(&bytes);
    assert_eq!(reader.read_u32(), Ok(0x1234_5678));
    assert_eq!(reader.tell(), 4);
    assert_eq!(reader.read_u32(), Ok(u32::MAX));
    assert_eq!(reader.read_u32(), Err(TexError::TruncatedStream));
    assert_eq!(reader.tell(), 8);
}

#[test]
fn read_i32_keeps_the_sign() {
    let mut bytes = Vec::new();
    for v in [-1i32, i32::MIN, i32::MAX, 0, -7, 0x0102_0304] {
        bytes.extend_from_slice(&v.to_le_bytes());
    }
    let mut reader = ByteCursor::new(&bytes);
    assert_eq!(reader.read_i32(), Ok(-1));
    assert_eq!(reader.read_i32(), Ok(i32::MIN));
    assert_eq!(reader.read_i32(), Ok(i32::MAX));
    assert_eq!(reader.read_i32(), Ok(0));
    assert_eq!(reader.read_i32(), Ok(-7));
    assert_eq!(reader.read_i32(), Ok(0x0102_0304));
    assert_eq!(reader.read_i32(), Err(TexError::TruncatedStream));
}

#[test]
fn read_bytes_copies_a_range() {
    let bytes = [1u8, 2, 3, 4, 5];
    let mut reader = ByteCursor::new(&bytes);
    reader.seek(1);
    assert_eq!(reader.read_bytes(3), Ok(vec![2, 3, 4]));
    assert_eq!(reader.tell(), 4);
    assert_eq!(reader.read_bytes(0), Ok(vec![]));
    assert_eq!(reader.read_bytes(2), Err(TexError::TruncatedStream));
    assert_eq!(reader.tell(), 4);
    assert_eq!(reader.read_bytes(usize::MAX), Err(TexError::TruncatedStream));
    assert_eq!(reader.read_bytes(1), Ok(vec![5]));
}

#[test]
fn read_n_string_decodes_utf8() {
    let text = "玉子.tex";
    let mut bytes = text.as_bytes().to_vec();
    bytes.extend_from_slice(&[0xFF, 0xFE]);
    let mut reader = ByteCursor::new(&bytes);
    assert_eq!(reader.read_n_string(text.len()), Ok(text.to_string()));
    assert_eq!(reader.tell(), text.len());
    assert_eq!(reader.read_n_string(2), Err(TexError::EncodingFailure));
    assert_eq!(reader.tell(), bytes.len());
    assert_eq!(reader.read_n_string(1), Err(TexError::TruncatedStream));
    assert_eq!(reader.read_n_string(0), Ok(String::new()));
}

#[test]
fn read_n_string_refuses_half_a_character() {
    let bytes = "玉".as_bytes().to_vec();
    let mut reader = ByteCursor::new(&bytes);
    assert_eq!(reader.read_n_string(2), Err(TexError::EncodingFailure));
    assert_eq!(reader.tell(), 2);
}

#[test]
fn seek_past_the_end_makes_reads_fail() {
    let bytes = [1u8, 2, 3];
    let mut reader = ByteCursor::new(&bytes);
    reader.seek(usize::MAX);
    assert_eq!(reader.tell(), usize::MAX);
    assert_eq!(reader.read_u8(), Err(TexError::TruncatedStream));
    assert_eq!(reader.read_u32(), Err(TexError::TruncatedStream));
    assert_eq!(reader.read_bytes(0), Err(TexError::TruncatedStream));
    assert_eq!(reader.tell(), usize::MAX);
    reader.seek(3);
    assert_eq!(reader.read_bytes(0), Ok(vec![]));
    reader.seek(2);
    assert_eq!(reader.read_u8(), Ok(3));
}

#[test]
fn read_u16_is_little_endian() {
    let bytes = [0x34u8, 0x12, 0xFF, 0xFF, 9];
    let mut reader = ByteCursor::new(&bytes);
    assert_eq!(reader.read_u16(), Ok(0x1234));
    assert_eq!(reader.tell(), 2);
    assert_eq!(reader.read_u16(), Ok(u16::MAX));
    assert_eq!(reader.read_u16(), Err(TexError::TruncatedStream));
    assert_eq!(reader.tell(), 4);
}

#[test]
fn length_prefixed_bytes() {
    let bytes = [3u8, 0, 0, 0, 7, 8, 9, 0, 0, 0, 0, 2, 0, 0, 0, 1];
    let mut reader = ByteCursor::new(&bytes);
    assert_eq!(reader.read_length_prefixed_bytes(), Ok(vec![7, 8, 9]));
    assert_eq!(reader.tell(), 7);
    assert_eq!(reader.read_length_prefixed_bytes(), Ok(vec![]));
    assert_eq!(reader.tell(), 11);
    assert_eq!(
        reader.read_length_prefixed_bytes(),
        Err(TexError::TruncatedStream)
    );
    assert_eq!(reader.tell(), 15);
    assert_eq!(
        reader.read_length_prefixed_bytes(),
        Err(TexError::TruncatedStream)
    );
    assert_eq!(reader.tell(), 15);
}
