use std::io::Cursor;

use wallpaper_extractor::cursor::ByteCursor;
use wallpaper_extractor::export::{image_file_name, name_plan, SavePlan};
use wallpaper_extractor::texture::{read_texture, Tex};

fn put_u32(out: &mut Vec<u8>, v: u32) {
    out.extend_from_slice(&v.to_le_bytes());
}

fn put_magic(out: &mut Vec<u8>, magic: &str) {
    out.extend_from_slice(magic.as_bytes());
    out.push(0);
}

/// A texture of version 3 with the container format `code`, and one image
/// with one mipmap for each payload.
fn texture(code: i32, payloads: &[&[u8]]) -> Vec<u8> {
    let mut out = Vec::new();
    put_magic(&mut out, "TEXV0005");
    put_magic(&mut out, "TEXI0001");
    for field in [0u32, 0, 2, 2, 2, 2, 0] {
        put_u32(&mut out, field);
    }
    put_magic(&mut out, "TEXB0003");
    put_u32(&mut out, 1);
    out.extend_from_slice(&code.to_le_bytes());
    put_u32(&mut out, payloads.len() as u32);
    for payload in payloads {
        put_u32(&mut out, 2);
        put_u32(&mut out, 2);
        put_u32(&mut out, 0);
        put_u32(&mut out, 0);
        put_u32(&mut out, payload.len() as u32);
        out.extend_from_slice(payload);
    }
    out
}

fn decode(bytes: &[u8], name: &str) -> Tex {
    let mut reader = ByteCursor::new(bytes);
    read_texture(&mut reader, name).unwrap().unwrap()
}

fn tiny_png() -> Vec<u8> {
    let img = image::RgbaImage::from_pixel(2, 2, image::Rgba([10, 20, 30, 255]));
    let mut buf = Vec::new();
    img.write_to(&mut Cursor::new(&mut buf), image::ImageFormat::Png)
        .unwrap();
    buf
}

#[test]
fn file_name_joins_name_and_extension() {
    assert_eq!(image_file_name("玉子", "png"), "玉子.png");
    assert_eq!(image_file_name("", ""), ".");
    assert_eq!(image_file_name("a.b", "jpg"), "a.b.jpg");
}

#[test]
fn plan_follows_the_guess() {
    assert_eq!(
        name_plan("wall", Some("gif".to_string())),
        SavePlan::File("wall.gif".to_string())
    );
    assert_eq!(name_plan("wall", None), SavePlan::UnknownFormat);
}

#[test]
fn texture_without_codec_format_is_not_written() {
    let png = tiny_png();
    let tex = decode(&texture(-1, &[&png]), "wall");
    assert_eq!(tex.save_plan(), SavePlan::Nothing);
    assert_eq!(tex.first_mipmap().unwrap().bytes(), &png);
}

#[test]
fn png_payload_is_written_as_png() {
    let png = tiny_png();
    let tex = decode(&texture(13, &[&png, &[1, 2, 3]]), "玉子");
    assert_eq!(tex.save_plan(), SavePlan::File("玉子.png".to_string()));
    assert_eq!(tex.first_mipmap().unwrap().bytes(), &png);
}

#[test]
fn format_is_guessed_from_the_bytes_not_from_the_code() {
    let tex = decode(&texture(13, &[&[0xFF, 0xD8, 0xFF, 0xE0, 0, 0]]), "photo");
    assert_eq!(tex.save_plan(), SavePlan::File("photo.jpg".to_string()));
    let tex = decode(&texture(2, &[b"GIF89a......"]), "anim");
    assert_eq!(tex.save_plan(), SavePlan::File("anim.gif".to_string()));
    let tex = decode(&texture(0, &[b"BM......"]), "bitmap");
    assert_eq!(tex.save_plan(), SavePlan::File("bitmap.bmp".to_string()));
}

#[test]
fn unrecognized_bytes_have_no_file_name() {
    let tex = decode(&texture(13, &[&[1, 2, 3, 4, 5, 6, 7, 8]]), "junk");
    assert_eq!(tex.save_plan(), SavePlan::UnknownFormat);
    let tex = decode(&texture(13, &[&[]]), "empty");
    assert_eq!(tex.save_plan(), SavePlan::UnknownFormat);
}

#[test]
fn texture_without_mipmaps_has_nothing_to_write() {
    let tex = decode(&texture(13, &[]), "none");
    assert_eq!(tex.save_plan(), SavePlan::NoImage);
    assert!(tex.first_mipmap().is_none());

    let mut bytes = texture(13, &[]);
    let at = bytes.len() - 12;
    bytes[at] = 0;
    bytes.truncate(at + 8);
    let tex = decode(&bytes, "none");
    assert!(tex.image_container().images().is_empty());
    assert_eq!(tex.save_plan(), SavePlan::NoImage);
}
