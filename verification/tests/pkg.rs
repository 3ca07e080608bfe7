use wallpaper_extractor::cursor::ByteCursor;
use wallpaper_extractor::error::TexError;
use wallpaper_extractor::pkg::{parse_pkg, ItemType, PkgItem};

fn put_u32(out: &mut Vec<u8>, v: u32) {
    out.extend_from_slice(&v.to_le_bytes());
}

fn put_string(out: &mut Vec<u8>, text: &str) {
    put_u32(out, text.len() as u32);
    out.extend_from_slice(text.as_bytes());
}

fn put_entry(out: &mut Vec<u8>, path: &str, offset: u32, length: u32) {
    put_string(out, path);
    put_u32(out, offset);
    put_u32(out, length);
}

#[test]
fn item_kind_follows_the_extension() {
    assert_eq!(ItemType::of_extension("tex"), ItemType::TexFile);
    assert_eq!(ItemType::of_extension("TEX"), ItemType::OtherFile);
    assert_eq!(ItemType::of_extension("png"), ItemType::OtherFile);
    assert_eq!(ItemType::of_extension(""), ItemType::OtherFile);
    assert_eq!(ItemType::of_extension("text"), ItemType::OtherFile);
}

#[test]
fn new_item_keeps_what_it_is_given() {
    let item = PkgItem::new("materials/玉子.tex", 7, 9).unwrap();
    assert_eq!(item.file_path(), "materials/玉子.tex");
    assert_eq!(item.offset(), 7);
    assert_eq!(item.length(), 9);
    assert_eq!(item.file_type(), ItemType::TexFile);
    let other = PkgItem::new("scene.json", u32::MAX, 0).unwrap();
    assert_eq!(other.file_type(), ItemType::OtherFile);
    assert_eq!(other.offset(), u32::MAX);
    assert_eq!(other.length(), 0);
}

#[test]
fn new_item_needs_an_extension() {
    assert_eq!(PkgItem::new("LICENSE", 0, 1), None);
    assert_eq!(PkgItem::new("", 0, 1), None);
    assert_eq!(PkgItem::new("a.tex/LICENSE", 0, 1), None);
    assert_eq!(PkgItem::new(".tex", 0, 1), None);
}

#[test]
fn item_with_a_given_extension() {
    let item = PkgItem::with_extension("whatever", "tex", 1, 2);
    assert_eq!(item.file_path(), "whatever");
    assert_eq!(item.offset(), 1);
    assert_eq!(item.length(), 2);
    assert_eq!(item.file_type(), ItemType::TexFile);
    assert_eq!(
        PkgItem::with_extension("x.tex", "json", 1, 2).file_type(),
        ItemType::OtherFile
    );
}

#[test]
fn index_is_parsed_in_order() {
    let mut bytes = vec![0xEE, 0xEE];
    put_string(&mut bytes, "PKGV0001");
    put_u32(&mut bytes, 3);
    put_entry(&mut bytes, "scene.json", 0, 10);
    put_entry(&mut bytes, "materials/a.tex", 10, 20);
    put_entry(&mut bytes, "materials/b.TEX", 30, 5);
    let end = bytes.len();
    bytes.extend_from_slice(&[0; 35]);
    let mut reader = ByteCursor::new(&bytes);
    reader.seek(2);
    let items = parse_pkg(&mut reader).unwrap();
    assert_eq!(reader.tell(), end);
    assert_eq!(items.len(), 3);
    assert_eq!(items[0], PkgItem::with_extension("scene.json", "json", 0, 10));
    assert_eq!(items[1], PkgItem::with_extension("materials/a.tex", "tex", 10, 20));
    assert_eq!(items[2].file_path(), "materials/b.TEX");
    assert_eq!(items[2].file_type(), ItemType::OtherFile);
    assert_eq!(items[2].offset(), 30);
    assert_eq!(items[2].length(), 5);
}

#[test]
fn empty_index() {
    let mut bytes = Vec::new();
    put_string(&mut bytes, "");
    put_u32(&mut bytes, 0);
    let mut reader = ByteCursor::new(&bytes);
    assert_eq!(parse_pkg(&mut reader), Ok(vec![]));
    assert_eq!(reader.tell(), 8);
}

#[test]
fn path_without_extension_ends_the_parsing() {
    let mut bytes = Vec::new();
    put_string(&mut bytes, "PKGV0001");
    put_u32(&mut bytes, 2);
    put_entry(&mut bytes, "LICENSE", 0, 10);
    let after_first = bytes.len();
    put_entry(&mut bytes, "a.tex", 10, 20);
    let mut reader = ByteCursor::new(&bytes);
    assert_eq!(parse_pkg(&mut reader), Err(TexError::MissingExtension));
    assert_eq!(reader.tell(), after_first);
}

#[test]
fn path_without_extension_is_reported_after_its_entry() {
    let mut bytes = Vec::new();
    put_string(&mut bytes, "PKGV0001");
    put_u32(&mut bytes, 3);
    put_entry(&mut bytes, "a.tex", 0, 10);
    put_entry(&mut bytes, "README", 10, 20);
    let after_second = bytes.len();
    bytes.extend_from_slice(&[9, 0]);
    let mut reader = ByteCursor::new(&bytes);
    assert_eq!(parse_pkg(&mut reader), Err(TexError::MissingExtension));
    assert_eq!(reader.tell(), after_second);

    let mut reader = ByteCursor::new(&bytes[..after_second - 1]);
    assert_eq!(parse_pkg(&mut reader), Err(TexError::TruncatedStream));
    assert_eq!(reader.tell(), after_second - 4);
}

#[test]
fn item_follows_what_was_found() {
    assert_eq!(
        PkgItem::with_found_extension("a/b.tex", Some("tex".to_string()), 3, 4),
        Some(PkgItem::with_extension("a/b.tex", "tex", 3, 4))
    );
    let other = PkgItem::with_found_extension("a/b.tex", Some("png".to_string()), 3, 4).unwrap();
    assert_eq!(other.file_type(), ItemType::OtherFile);
    assert_eq!(other.file_path(), "a/b.tex");
    assert_eq!(other.offset(), 3);
    assert_eq!(other.length(), 4);
    assert_eq!(PkgItem::with_found_extension("a/b.tex", None, 3, 4), None);
}

#[test]
fn truncated_index() {
    let mut bytes = Vec::new();
    put_string(&mut bytes, "PKGV0001");
    put_u32(&mut bytes, 2);
    put_entry(&mut bytes, "a.tex", 10, 20);
    let end = bytes.len();
    let mut reader = ByteCursor::new(&bytes);
    assert_eq!(parse_pkg(&mut reader), Err(TexError::TruncatedStream));
    assert_eq!(reader.tell(), end);

    let short = &bytes[..end - 2];
    let mut reader = ByteCursor::new(short);
    assert_eq!(parse_pkg(&mut reader), Err(TexError::TruncatedStream));
    assert_eq!(reader.tell(), end - 4);

    let mut reader = ByteCursor::new(&bytes[..3]);
    assert_eq!(parse_pkg(&mut reader), Err(TexError::TruncatedStream));
    assert_eq!(reader.tell(), 0);
}

#[test]
fn path_that_is_not_text() {
    let mut bytes = Vec::new();
    put_string(&mut bytes, "PKGV0001");
    put_u32(&mut bytes, 1);
    put_u32(&mut bytes, 2);
    bytes.extend_from_slice(&[0xFF, 0xFF]);
    put_u32(&mut bytes, 0);
    put_u32(&mut bytes, 0);
    let mut reader = ByteCursor::new(&bytes);
    assert_eq!(parse_pkg(&mut reader), Err(TexError::EncodingFailure));
    assert_eq!(reader.tell(), 22);
}
