use std::io::Cursor;

use image::ImageReader;
use wallpaper_extractor::cursor::ByteCursor;
use wallpaper_extractor::enums::{FreeImageFormat, MipmapFormat, TexFlags, TexFormat};
use wallpaper_extractor::error::{Field, TexError, TexFailure};
use wallpaper_extractor::texture::{
    decompress_mipmap, get_mipmap_format, inflate_mipmap, read_image, read_image_container,
    read_mipmap, read_mipmap_v1, read_mipmap_v2v3, read_texture, unblock_mipmap, TexHeader,
};

fn put_u32(out: &mut Vec<u8>, v: u32) {
    out.extend_from_slice(&v.to_le_bytes());
}

fn put_i32(out: &mut Vec<u8>, v: i32) {
    out.extend_from_slice(&v.to_le_bytes());
}

fn put_magic(out: &mut Vec<u8>, magic: &str) {
    out.extend_from_slice(magic.as_bytes());
    out.push(0);
}

fn put_header(out: &mut Vec<u8>, format: u32, flags: i32) {
    put_u32(out, format);
    put_i32(out, flags);
    put_u32(out, 64);
    put_u32(out, 32);
    put_u32(out, 60);
    put_u32(out, 30);
    put_i32(out, -7);
}

fn put_payload(out: &mut Vec<u8>, payload: &[u8]) {
    put_u32(out, payload.len() as u32);
    out.extend_from_slice(payload);
}

fn put_mipmap_v1(out: &mut Vec<u8>, width: u32, height: u32, payload: &[u8]) {
    put_u32(out, width);
    put_u32(out, height);
    put_payload(out, payload);
}

fn put_mipmap_v2(
    out: &mut Vec<u8>,
    width: u32,
    height: u32,
    flag: u32,
    decompressed: u32,
    payload: &[u8],
) {
    put_u32(out, width);
    put_u32(out, height);
    put_u32(out, flag);
    put_u32(out, decompressed);
    put_payload(out, payload);
}

/// Magics and header of a texture that is not animated.
fn texture_start(format: u32) -> Vec<u8> {
    let mut out = Vec::new();
    put_magic(&mut out, "TEXV0005");
    put_magic(&mut out, "TEXI0001");
    put_header(&mut out, format, 2);
    out
}

fn minimal_texture() -> Vec<u8> {
    let mut out = texture_start(0);
    put_magic(&mut out, "TEXB0001");
    put_u32(&mut out, 1);
    put_u32(&mut out, 1);
    put_mipmap_v1(&mut out, 1, 1, &[9, 8, 7, 6]);
    out
}

fn tiny_png() -> Vec<u8> {
    let img = image::RgbaImage::from_pixel(2, 2, image::Rgba([10, 20, 30, 255]));
    let mut buf = Vec::new();
    img.write_to(&mut Cursor::new(&mut buf), image::ImageFormat::Png)
        .unwrap();
    buf
}

#[test]
fn test_parse_tex() {
    let png = tiny_png();
    let mut bytes = texture_start(0);
    put_magic(&mut bytes, "TEXB0003");
    put_u32(&mut bytes, 1);
    put_i32(&mut bytes, 13);
    put_u32(&mut bytes, 1);
    put_mipmap_v2(&mut bytes, 2, 2, 0, 0, &png);
    let mut reader = ByteCursor::new(&bytes);
    let tex = read_texture(&mut reader, "玉子").expect("failed to handle tex file");
    match tex {
        Some(tex) => {
            let mipmap = tex
                .image_container()
                .images()
                .get(0)
                .unwrap()
                .mipmaps()
                .get(0)
                .unwrap();
            let img = ImageReader::new(Cursor::new(mipmap.bytes()))
                .with_guessed_format()
                .unwrap()
                .decode()
                .unwrap();
            assert_eq!(img.width(), 2);
            assert_eq!(img.height(), 2);
            assert_eq!(tex.name(), "玉子");
            assert_eq!(mipmap.format(), MipmapFormat::ImagePNG);
            assert_eq!(mipmap.bytes(), &png);
        }
        None => panic!("the record is a texture"),
    };
}

#[test]
fn minimal_texture_round_trips() {
    let bytes = minimal_texture();
    let mut reader = ByteCursor::new(&bytes);
    let tex = read_texture(&mut reader, "walls").unwrap().unwrap();
    assert_eq!(reader.tell(), bytes.len());
    assert_eq!(tex.name(), "walls");
    assert_eq!(tex.magic1(), "TEXV0005");
    assert_eq!(tex.magic2(), "TEXI0001");
    assert!(!tex.is_gif());
    let header: &TexHeader = tex.header();
    assert_eq!(header.format, TexFormat::RGBA8888);
    assert_eq!(header.flags.bits, 2);
    assert!(!header.flags.is_gif());
    assert_eq!(header.tex_width, 64);
    assert_eq!(header.tex_height, 32);
    assert_eq!(header.img_width, 60);
    assert_eq!(header.img_height, 30);
    assert_eq!(header.unk_int0, -7);
    let container = tex.image_container();
    assert_eq!(container.magic(), "TEXB0001");
    assert_eq!(container.version(), 1);
    assert_eq!(container.image_format(), FreeImageFormat::FIF_UNKNOWN);
    assert_eq!(container.images().len(), 1);
    let mipmaps = container.images()[0].mipmaps();
    assert_eq!(mipmaps.len(), 1);
    let m = &mipmaps[0];
    assert_eq!(m.width(), 1);
    assert_eq!(m.height(), 1);
    assert!(!m.lz4_compressed());
    assert_eq!(m.decompressed_bytes_count(), 0);
    assert_eq!(m.bytes(), &vec![9, 8, 7, 6]);
    assert_eq!(m.version(), 1);
    assert_eq!(m.format(), MipmapFormat::RGBA8888);
}

#[test]
fn texture_is_decoded_from_the_cursor_position() {
    let mut bytes = vec![0xAA; 5];
    bytes.extend_from_slice(&minimal_texture());
    bytes.extend_from_slice(&[0xBB; 3]);
    let mut reader = ByteCursor::new(&bytes);
    reader.seek(5);
    let tex = read_texture(&mut reader, "t").unwrap().unwrap();
    assert_eq!(reader.tell(), bytes.len() - 3);
    assert_eq!(tex.image_container().images()[0].mipmaps()[0].bytes(), &vec![9, 8, 7, 6]);
}

#[test]
fn first_magic_mismatch_is_a_skip() {
    let mut bytes = minimal_texture();
    bytes[3] = b'X';
    let mut reader = ByteCursor::new(&bytes);
    assert_eq!(read_texture(&mut reader, "t"), Ok(None));
    assert_eq!(reader.tell(), 8);
}

#[test]
fn first_magic_alone_is_enough_for_a_skip() {
    let bytes = b"NOTATEX!".to_vec();
    let mut reader = ByteCursor::new(&bytes);
    assert_eq!(read_texture(&mut reader, "t"), Ok(None));
    assert_eq!(reader.tell(), 8);
}

#[test]
fn second_magic_mismatch_is_a_skip() {
    let mut bytes = minimal_texture();
    bytes[16] = b'2';
    let mut reader = ByteCursor::new(&bytes);
    assert_eq!(read_texture(&mut reader, "t"), Ok(None));
    assert_eq!(reader.tell(), 17);
}

#[test]
fn magic_that_is_not_text_is_an_encoding_failure() {
    let mut bytes = minimal_texture();
    for b in bytes.iter_mut().take(8) {
        *b = 0xFF;
    }
    let mut reader = ByteCursor::new(&bytes);
    assert_eq!(
        read_texture(&mut reader, "t"),
        Err(TexFailure::at(TexError::EncodingFailure, Field::FirstMagic))
    );
    assert_eq!(reader.tell(), 8);
}

#[test]
fn short_magic_is_a_truncated_stream() {
    let bytes = b"TEXV000".to_vec();
    let mut reader = ByteCursor::new(&bytes);
    assert_eq!(
        read_texture(&mut reader, "t"),
        Err(TexFailure::at(TexError::TruncatedStream, Field::FirstMagic))
    );
    assert_eq!(reader.tell(), 0);
}

#[test]
fn missing_separator_is_a_truncated_stream() {
    let bytes = b"TEXV0005".to_vec();
    let mut reader = ByteCursor::new(&bytes);
    assert_eq!(
        read_texture(&mut reader, "t"),
        Err(TexFailure::at(TexError::TruncatedStream, Field::FirstMagic))
    );
    assert_eq!(reader.tell(), 8);
}

#[test]
fn animated_texture_is_a_skip() {
    let mut bytes = Vec::new();
    put_magic(&mut bytes, "TEXV0005");
    put_magic(&mut bytes, "TEXI0001");
    put_header(&mut bytes, 0, 1);
    put_magic(&mut bytes, "TEXB0001");
    put_u32(&mut bytes, 1);
    put_u32(&mut bytes, 1);
    put_mipmap_v1(&mut bytes, 1, 1, &[9, 8, 7, 6]);
    let mut reader = ByteCursor::new(&bytes);
    assert_eq!(read_texture(&mut reader, "t"), Ok(None));
    assert_eq!(reader.tell(), 46);
}

#[test]
fn animated_texture_is_a_skip_whatever_follows() {
    let mut bytes = Vec::new();
    put_magic(&mut bytes, "TEXV0005");
    put_magic(&mut bytes, "TEXI0001");
    put_header(&mut bytes, 3, 7);
    bytes.extend_from_slice(&[0xFF; 5]);
    let mut reader = ByteCursor::new(&bytes);
    assert_eq!(read_texture(&mut reader, "t"), Ok(None));
    assert_eq!(reader.tell(), 46);
}

#[test]
fn unknown_flag_bits_are_kept() {
    let mut bytes = Vec::new();
    put_header(&mut bytes, 5, 0x7fff_fffe);
    let mut reader = ByteCursor::new(&bytes);
    let header = TexHeader::new(&mut reader).unwrap();
    assert_eq!(header.format, TexFormat::RG88);
    assert_eq!(header.flags, TexFlags::try_from(0x7fff_fffe).unwrap());
    assert_eq!(header.flags.bits, 0x7fff_fffe);
    assert!(!header.flags.is_gif());
    assert_eq!(reader.tell(), 28);
}

#[test]
fn header_with_unknown_pixel_format_fails() {
    let mut bytes = Vec::new();
    put_header(&mut bytes, 6, 0);
    let mut reader = ByteCursor::new(&bytes);
    assert_eq!(
        TexHeader::new(&mut reader),
        Err(TexFailure::at(TexError::UnrecognizedFormat(6), Field::PixelFormat))
    );
    assert_eq!(reader.tell(), 4);
}

#[test]
fn header_with_negative_flags_fails() {
    let mut bytes = Vec::new();
    put_header(&mut bytes, 0, -1);
    let mut reader = ByteCursor::new(&bytes);
    assert_eq!(
        TexHeader::new(&mut reader),
        Err(TexFailure::at(TexError::UnrecognizedFlags(-1), Field::Flags))
    );
    assert_eq!(reader.tell(), 8);
}

#[test]
fn short_header_is_a_truncated_stream() {
    let mut bytes = Vec::new();
    put_header(&mut bytes, 0, 0);
    bytes.truncate(22);
    let mut reader = ByteCursor::new(&bytes);
    assert_eq!(
        TexHeader::new(&mut reader),
        Err(TexFailure::at(TexError::TruncatedStream, Field::ImgHeight))
    );
    assert_eq!(reader.tell(), 20);
}

#[test]
fn texture_with_bad_header_fails() {
    let mut bytes = Vec::new();
    put_magic(&mut bytes, "TEXV0005");
    put_magic(&mut bytes, "TEXI0001");
    put_header(&mut bytes, 77, 0);
    let mut reader = ByteCursor::new(&bytes);
    assert_eq!(
        read_texture(&mut reader, "t"),
        Err(TexFailure::at(TexError::UnrecognizedFormat(77), Field::PixelFormat))
    );
    assert_eq!(reader.tell(), 22);
}

#[test]
fn container_version_four_is_unsupported() {
    let mut bytes = texture_start(0);
    put_magic(&mut bytes, "TEXB0004");
    put_u32(&mut bytes, 1);
    put_u32(&mut bytes, 1);
    put_mipmap_v1(&mut bytes, 1, 1, &[9, 8, 7, 6]);
    let mut reader = ByteCursor::new(&bytes);
    assert_eq!(
        read_texture(&mut reader, "t"),
        Err(TexFailure::at(TexError::UnsupportedVersion, Field::ContainerMagic))
    );
    assert_eq!(reader.tell(), 46 + 13);
}

#[test]
fn container_with_foreign_magic_is_unsupported() {
    let mut bytes = Vec::new();
    put_magic(&mut bytes, "ABCD0001");
    put_u32(&mut bytes, 0);
    let mut reader = ByteCursor::new(&bytes);
    assert_eq!(
        read_image_container(&mut reader, TexFormat::RGBA8888),
        Err(TexFailure::at(TexError::UnsupportedVersion, Field::ContainerMagic))
    );
    assert_eq!(reader.tell(), 13);
}

#[test]
fn container_magic_that_is_not_text_is_an_encoding_failure() {
    let mut bytes = vec![0xC0; 8];
    bytes.push(0);
    put_u32(&mut bytes, 0);
    let mut reader = ByteCursor::new(&bytes);
    assert_eq!(
        read_image_container(&mut reader, TexFormat::RGBA8888),
        Err(TexFailure::at(TexError::EncodingFailure, Field::ContainerMagic))
    );
    assert_eq!(reader.tell(), 8);
}

#[test]
fn container_without_images_is_empty() {
    let mut bytes = Vec::new();
    put_magic(&mut bytes, "TEXB0002");
    put_u32(&mut bytes, 0);
    let mut reader = ByteCursor::new(&bytes);
    let container = read_image_container(&mut reader, TexFormat::R8).unwrap();
    assert_eq!(container.version(), 2);
    assert_eq!(container.magic(), "TEXB0002");
    assert_eq!(container.image_format(), FreeImageFormat::FIF_UNKNOWN);
    assert!(container.images().is_empty());
    assert_eq!(reader.tell(), 13);
}

#[test]
fn container_version_three_reads_its_format_code() {
    let mut bytes = Vec::new();
    put_magic(&mut bytes, "TEXB0003");
    put_u32(&mut bytes, 2);
    put_i32(&mut bytes, 2);
    put_u32(&mut bytes, 1);
    put_mipmap_v2(&mut bytes, 3, 5, 0, 9, &[1, 2, 3]);
    put_u32(&mut bytes, 0);
    let mut reader = ByteCursor::new(&bytes);
    let container = read_image_container(&mut reader, TexFormat::DXT1).unwrap();
    assert_eq!(reader.tell(), bytes.len());
    assert_eq!(container.version(), 3);
    assert_eq!(container.image_format(), FreeImageFormat::FIF_JPEG);
    assert_eq!(container.images().len(), 2);
    assert_eq!(container.images()[1].mipmaps().len(), 0);
    let m = &container.images()[0].mipmaps()[0];
    assert_eq!(m.format(), MipmapFormat::ImageJPEG);
    assert_eq!(m.format().code(), 1002);
    assert_eq!(m.bytes(), &vec![1, 2, 3]);
    assert_eq!(m.width(), 3);
    assert_eq!(m.height(), 5);
    assert_eq!(m.version(), 3);
    assert_eq!(m.decompressed_bytes_count(), 9);
    assert!(!m.lz4_compressed());
}

#[test]
fn container_version_three_with_sentinel_uses_the_pixel_format() {
    let mut bytes = Vec::new();
    put_magic(&mut bytes, "TEXB0003");
    put_u32(&mut bytes, 1);
    put_i32(&mut bytes, -1);
    put_u32(&mut bytes, 1);
    put_mipmap_v2(&mut bytes, 2, 1, 0, 0, &[5, 6]);
    let mut reader = ByteCursor::new(&bytes);
    let container = read_image_container(&mut reader, TexFormat::R8).unwrap();
    assert_eq!(container.image_format(), FreeImageFormat::FIF_UNKNOWN);
    assert_eq!(container.images()[0].mipmaps()[0].format(), MipmapFormat::R8);
}

#[test]
fn container_with_unknown_format_code_fails() {
    let mut bytes = Vec::new();
    put_magic(&mut bytes, "TEXB0003");
    put_u32(&mut bytes, 1);
    put_i32(&mut bytes, 35);
    let mut reader = ByteCursor::new(&bytes);
    assert_eq!(
        read_image_container(&mut reader, TexFormat::RGBA8888),
        Err(TexFailure::at(TexError::UnknownFormatCode(35), Field::ImageFormat))
    );
    assert_eq!(reader.tell(), 17);
}

#[test]
fn container_stops_at_the_first_bad_image() {
    let mut bytes = Vec::new();
    put_magic(&mut bytes, "TEXB0001");
    put_u32(&mut bytes, 2);
    put_u32(&mut bytes, 1);
    put_mipmap_v1(&mut bytes, 1, 1, &[1, 2, 3, 4]);
    put_u32(&mut bytes, 1);
    put_u32(&mut bytes, 1);
    let end = bytes.len();
    let mut reader = ByteCursor::new(&bytes);
    assert_eq!(
        read_image_container(&mut reader, TexFormat::RGBA8888),
        Err(TexFailure {
            error: TexError::TruncatedStream,
            field: Some(Field::Height),
            image: Some(1),
            mipmap: Some(0),
        })
    );
    assert_eq!(reader.tell(), end);
}

#[test]
fn v1_record_is_never_compressed() {
    let mut bytes = Vec::new();
    put_mipmap_v1(&mut bytes, 1, 0, &[1, 0, 0, 0, 77]);
    let mut reader = ByteCursor::new(&bytes);
    let m = read_mipmap_v1(&mut reader, MipmapFormat::R8).unwrap();
    assert!(!m.lz4_compressed());
    assert_eq!(m.decompressed_bytes_count(), 0);
    assert_eq!(m.version(), 1);
    assert_eq!(m.width(), 1);
    assert_eq!(m.height(), 0);
    assert_eq!(m.bytes(), &vec![1, 0, 0, 0, 77]);
    assert_eq!(reader.tell(), 12 + 5);
}

#[test]
fn v2_flag_must_be_exactly_one() {
    let mut bytes = Vec::new();
    put_mipmap_v2(&mut bytes, 1, 1, 3, 4, &[1, 2, 3, 4]);
    put_mipmap_v2(&mut bytes, 1, 1, 1, 4, &[1, 2, 3, 4]);
    let mut reader = ByteCursor::new(&bytes);
    let lenient = read_mipmap_v2v3(&mut reader, 2, MipmapFormat::RGBA8888).unwrap();
    assert!(!lenient.lz4_compressed());
    assert_eq!(lenient.decompressed_bytes_count(), 4);
    assert_eq!(lenient.version(), 2);
    let flagged = read_mipmap_v2v3(&mut reader, 3, MipmapFormat::RGBA8888).unwrap();
    assert!(flagged.lz4_compressed());
    assert_eq!(flagged.version(), 3);
    assert_eq!(reader.tell(), bytes.len());
}

#[test]
fn v2_reader_refuses_other_versions() {
    let mut bytes = Vec::new();
    put_mipmap_v2(&mut bytes, 1, 1, 0, 4, &[1, 2, 3, 4]);
    let mut reader = ByteCursor::new(&bytes);
    for version in [0u8, 1, 4, 255] {
        assert_eq!(
            read_mipmap_v2v3(&mut reader, version, MipmapFormat::RGBA8888),
            Err(TexFailure::new(TexError::UnsupportedVersion))
        );
        assert_eq!(reader.tell(), 0);
    }
}

#[test]
fn mipmap_of_unknown_version_is_unsupported() {
    let mut bytes = Vec::new();
    put_mipmap_v1(&mut bytes, 1, 1, &[1, 2, 3, 4]);
    let mut reader = ByteCursor::new(&bytes);
    assert_eq!(
        read_mipmap(&mut reader, 0, MipmapFormat::RGBA8888),
        Err(TexFailure::new(TexError::UnsupportedVersion))
    );
    assert_eq!(
        read_mipmap(&mut reader, 4, MipmapFormat::RGBA8888),
        Err(TexFailure {
            error: TexError::UnsupportedVersion,
            field: None,
            image: None,
            mipmap: None,
        })
    );
    assert_eq!(reader.tell(), 0);
    assert!(read_mipmap(&mut reader, 1, MipmapFormat::RGBA8888).is_ok());
}

#[test]
fn image_of_unknown_version_fails_at_its_first_mipmap() {
    let mut bytes = Vec::new();
    put_u32(&mut bytes, 1);
    put_mipmap_v1(&mut bytes, 1, 1, &[1, 2, 3, 4]);
    let mut reader = ByteCursor::new(&bytes);
    assert_eq!(
        read_image(&mut reader, 9, MipmapFormat::RGBA8888),
        Err(TexFailure::new(TexError::UnsupportedVersion).in_mipmap(0))
    );
    assert_eq!(reader.tell(), 4);
}

#[test]
fn payload_longer_than_the_stream_is_truncated() {
    let mut bytes = Vec::new();
    put_u32(&mut bytes, 1);
    put_u32(&mut bytes, 1);
    put_u32(&mut bytes, 5);
    bytes.extend_from_slice(&[1, 2, 3, 4]);
    let mut reader = ByteCursor::new(&bytes);
    assert_eq!(
        read_mipmap_v1(&mut reader, MipmapFormat::RGBA8888),
        Err(TexFailure::at(TexError::TruncatedStream, Field::Payload))
    );
    assert_eq!(reader.tell(), 12);
}

#[test]
fn compressed_record_is_decompressed() {
    let plain: Vec<u8> = (0..200u32).map(|i| (i % 7) as u8).collect();
    let packed = lz4_flex::block::compress(&plain);
    assert_ne!(packed, plain);
    let mut bytes = Vec::new();
    put_u32(&mut bytes, 1);
    put_mipmap_v2(&mut bytes, 10, 5, 1, 200, &packed);
    let mut reader = ByteCursor::new(&bytes);
    let image = read_image(&mut reader, 2, MipmapFormat::RGBA8888).unwrap();
    let m = &image.mipmaps()[0];
    assert!(!m.lz4_compressed());
    assert_eq!(m.decompressed_bytes_count(), 200);
    assert_eq!(m.bytes().len(), 200);
    assert_eq!(m.bytes(), &plain);
    assert_eq!(m.format(), MipmapFormat::RGBA8888);
}

#[test]
fn inflate_checks_the_promised_size() {
    let plain: Vec<u8> = (0..200u32).map(|i| (i % 7) as u8).collect();
    let packed = lz4_flex::block::compress(&plain);
    for promised in [199u32, 201, 0] {
        let mut bytes = Vec::new();
        put_mipmap_v2(&mut bytes, 10, 5, 1, promised, &packed);
        let mut reader = ByteCursor::new(&bytes);
        let mut m = read_mipmap_v2v3(&mut reader, 2, MipmapFormat::RGBA8888).unwrap();
        let before = m.clone();
        assert_eq!(inflate_mipmap(&mut m), Err(TexError::DecompressionFailure));
        assert_eq!(m, before);
        assert_eq!(decompress_mipmap(&mut m), Err(TexError::DecompressionFailure));
        assert_eq!(m, before);
    }
}

#[test]
fn corrupt_compressed_record_fails() {
    let mut bytes = Vec::new();
    put_u32(&mut bytes, 1);
    put_mipmap_v2(&mut bytes, 1, 1, 1, 4, &[0xF0, 1, 2]);
    let end = bytes.len();
    let mut reader = ByteCursor::new(&bytes);
    assert_eq!(
        read_image(&mut reader, 3, MipmapFormat::RGBA8888),
        Err(TexFailure::at(TexError::DecompressionFailure, Field::Payload).in_mipmap(0))
    );
    assert_eq!(reader.tell(), end);
}

#[test]
fn inflate_leaves_a_plain_mipmap_alone() {
    let mut bytes = Vec::new();
    put_mipmap_v2(&mut bytes, 1, 1, 0, 99, &[1, 2, 3, 4]);
    let mut reader = ByteCursor::new(&bytes);
    let mut m = read_mipmap_v2v3(&mut reader, 2, MipmapFormat::CompressedDXT1).unwrap();
    let before = m.clone();
    assert_eq!(inflate_mipmap(&mut m), Ok(()));
    assert_eq!(m, before);
}

#[test]
fn codec_owned_mipmap_is_only_decompressed() {
    let plain: Vec<u8> = (0..64u32).map(|i| (i * 3) as u8).collect();
    let packed = lz4_flex::block::compress(&plain);
    let mut bytes = Vec::new();
    put_mipmap_v2(&mut bytes, 4, 4, 1, 64, &packed);
    let mut reader = ByteCursor::new(&bytes);
    let mut m = read_mipmap_v2v3(&mut reader, 3, MipmapFormat::ImageDDS).unwrap();
    assert_eq!(decompress_mipmap(&mut m), Ok(()));
    assert_eq!(m.format(), MipmapFormat::ImageDDS);
    assert_eq!(m.bytes(), &plain);
    assert!(!m.lz4_compressed());
}

#[test]
fn dxt1_resolves_to_compressed_and_normalizes_to_rgba() {
    let sentinel = FreeImageFormat::try_from(-1).unwrap();
    assert_eq!(sentinel, FreeImageFormat::FIF_UNKNOWN);
    assert_eq!(
        get_mipmap_format(&sentinel, &TexFormat::DXT1),
        MipmapFormat::CompressedDXT1
    );
    let block = [0x00, 0xF8, 0x1F, 0x00, 0xE4, 0x00, 0x00, 0x00];
    let mut bytes = Vec::new();
    put_mipmap_v1(&mut bytes, 4, 4, &block);
    let mut reader = ByteCursor::new(&bytes);
    let mut m = read_mipmap(&mut reader, 1, MipmapFormat::CompressedDXT1).unwrap();
    assert_eq!(m.format(), MipmapFormat::CompressedDXT1);
    assert_eq!(decompress_mipmap(&mut m), Ok(()));
    assert_eq!(m.format(), MipmapFormat::RGBA8888);
    assert_eq!(m.bytes().len(), 4 * 4 * 4);
    assert_eq!(
        &m.bytes()[0..16],
        &[255, 0, 0, 255, 0, 0, 255, 255, 170, 0, 85, 255, 85, 0, 170, 255]
    );
    assert_eq!(&m.bytes()[16..20], &[255, 0, 0, 255]);
    assert_eq!(m.width(), 4);
    assert_eq!(m.height(), 4);
}

#[test]
fn dxt_texture_is_decoded_to_pixels() {
    let block = [0x00, 0xF8, 0x1F, 0x00, 0xE4, 0x00, 0x00, 0x00];
    let packed = lz4_flex::block::compress(&block);
    let mut bytes = texture_start(3);
    put_magic(&mut bytes, "TEXB0002");
    put_u32(&mut bytes, 1);
    put_u32(&mut bytes, 2);
    put_mipmap_v2(&mut bytes, 4, 4, 1, 8, &packed);
    put_mipmap_v2(&mut bytes, 2, 2, 0, 0, &block);
    let mut reader = ByteCursor::new(&bytes);
    let tex = read_texture(&mut reader, "t").unwrap().unwrap();
    assert_eq!(tex.header().format, TexFormat::DXT1);
    let mipmaps = tex.image_container().images()[0].mipmaps();
    assert_eq!(mipmaps[0].format(), MipmapFormat::RGBA8888);
    assert_eq!(mipmaps[0].bytes().len(), 64);
    assert_eq!(&mipmaps[0].bytes()[8..12], &[170, 0, 85, 255]);
    assert_eq!(mipmaps[1].format(), MipmapFormat::RGBA8888);
    assert_eq!(
        mipmaps[1].bytes(),
        &vec![255, 0, 0, 255, 0, 0, 255, 255, 255, 0, 0, 255, 255, 0, 0, 255]
    );
}

#[test]
fn dxt_mipmap_with_short_payload_fails() {
    let mut bytes = Vec::new();
    put_mipmap_v1(&mut bytes, 5, 4, &[0; 15]);
    let mut reader = ByteCursor::new(&bytes);
    let mut m = read_mipmap(&mut reader, 1, MipmapFormat::CompressedDXT1).unwrap();
    let before = m.clone();
    assert_eq!(unblock_mipmap(&mut m), Err(TexError::DecompressionFailure));
    assert_eq!(m, before);
}

#[test]
fn unblock_leaves_plain_pixels_alone() {
    let mut bytes = Vec::new();
    put_mipmap_v1(&mut bytes, 5, 4, &[1, 2, 3]);
    let mut reader = ByteCursor::new(&bytes);
    let mut m = read_mipmap(&mut reader, 1, MipmapFormat::RG88).unwrap();
    let before = m.clone();
    assert_eq!(unblock_mipmap(&mut m), Ok(()));
    assert_eq!(m, before);
}

#[test]
fn decoding_twice_gives_equal_textures() {
    let block = [0x00, 0xF8, 0x1F, 0x00, 0xE4, 0x00, 0x00, 0x00];
    let packed = lz4_flex::block::compress(&block);
    let mut bytes = vec![1, 2, 3];
    bytes.extend_from_slice(&texture_start(3));
    put_magic(&mut bytes, "TEXB0002");
    put_u32(&mut bytes, 1);
    put_u32(&mut bytes, 1);
    put_mipmap_v2(&mut bytes, 4, 4, 1, 8, &packed);
    let mut first = ByteCursor::new(&bytes);
    first.seek(3);
    let mut second = ByteCursor::new(&bytes);
    second.seek(3);
    let a = read_texture(&mut first, "same");
    let b = read_texture(&mut second, "same");
    assert!(matches!(a, Ok(Some(_))));
    assert_eq!(a, b);
    assert_eq!(first.tell(), second.tell());
    second.seek(3);
    assert_eq!(read_texture(&mut second, "same"), a);
}

#[test]
fn get_mipmap_format_maps_each_pixel_format() {
    let none = FreeImageFormat::FIF_UNKNOWN;
    assert_eq!(get_mipmap_format(&none, &TexFormat::RGBA8888), MipmapFormat::RGBA8888);
    assert_eq!(get_mipmap_format(&none, &TexFormat::DXT5), MipmapFormat::CompressedDXT5);
    assert_eq!(get_mipmap_format(&none, &TexFormat::DXT3), MipmapFormat::CompressedDXT3);
    assert_eq!(get_mipmap_format(&none, &TexFormat::DXT1), MipmapFormat::CompressedDXT1);
    assert_eq!(get_mipmap_format(&none, &TexFormat::R8), MipmapFormat::R8);
    assert_eq!(get_mipmap_format(&none, &TexFormat::RG88), MipmapFormat::RG88);
    assert_eq!(
        get_mipmap_format(&FreeImageFormat::FIF_PNG, &TexFormat::DXT5),
        MipmapFormat::ImagePNG
    );
    assert_eq!(
        get_mipmap_format(&FreeImageFormat::FIF_BMP, &TexFormat::R8),
        MipmapFormat::ImageBMP
    );
    assert!(get_mipmap_format(&FreeImageFormat::FIF_RAW, &TexFormat::R8).is_codec_owned());
}

#[test]
fn failure_names_image_and_mipmap() {
    let plain = [7u8; 40];
    let packed = lz4_flex::block::compress(&plain);
    let mut bytes = texture_start(0);
    put_magic(&mut bytes, "TEXB0002");
    put_u32(&mut bytes, 3);
    put_u32(&mut bytes, 1);
    put_mipmap_v2(&mut bytes, 1, 1, 0, 0, &[1, 2, 3, 4]);
    put_u32(&mut bytes, 0);
    put_u32(&mut bytes, 3);
    put_mipmap_v2(&mut bytes, 1, 1, 1, 40, &packed);
    put_mipmap_v2(&mut bytes, 1, 1, 0, 0, &[]);
    put_mipmap_v2(&mut bytes, 1, 1, 1, 41, &packed);
    let end = bytes.len();
    put_u32(&mut bytes, 0);
    let mut reader = ByteCursor::new(&bytes);
    assert_eq!(
        read_texture(&mut reader, "t"),
        Err(TexFailure {
            error: TexError::DecompressionFailure,
            field: Some(Field::Payload),
            image: Some(2),
            mipmap: Some(2),
        })
    );
    assert_eq!(reader.tell(), end);

    let short = &bytes[..end - packed.len() - 6];
    let mut reader = ByteCursor::new(short);
    assert_eq!(
        read_texture(&mut reader, "t"),
        Err(TexFailure {
            error: TexError::TruncatedStream,
            field: Some(Field::DecompressedSize),
            image: Some(2),
            mipmap: Some(2),
        })
    );
    assert_eq!(reader.tell(), short.len() - 2);
}

#[test]
fn failure_in_the_mipmap_count_names_the_image_only() {
    let mut bytes = Vec::new();
    put_magic(&mut bytes, "TEXB0001");
    put_u32(&mut bytes, 2);
    put_u32(&mut bytes, 0);
    bytes.extend_from_slice(&[1, 0]);
    let mut reader = ByteCursor::new(&bytes);
    assert_eq!(
        read_image_container(&mut reader, TexFormat::R8),
        Err(TexFailure::at(TexError::TruncatedStream, Field::MipmapCount).in_image(1))
    );
    assert_eq!(reader.tell(), 17);
}

#[test]
fn truncated_container_names_its_fields() {
    let mut bytes = Vec::new();
    put_magic(&mut bytes, "TEXB0003");
    put_u32(&mut bytes, 1);
    put_i32(&mut bytes, 13);
    for (length, field, stop) in [
        (7, Field::ContainerMagic, 0),
        (8, Field::ContainerMagic, 8),
        (12, Field::ImageCount, 9),
        (16, Field::ImageFormat, 13),
        (17, Field::MipmapCount, 17),
    ] {
        let mut reader = ByteCursor::new(&bytes[..length]);
        let failure = read_image_container(&mut reader, TexFormat::R8).unwrap_err();
        assert_eq!(failure.error, TexError::TruncatedStream);
        assert_eq!(failure.field, Some(field));
        assert_eq!(failure.image, if length == 17 { Some(0) } else { None });
        assert_eq!(failure.mipmap, None);
        assert_eq!(reader.tell(), stop);
    }
}

#[test]
fn truncated_mipmap_names_its_fields() {
    let mut bytes = Vec::new();
    put_mipmap_v2(&mut bytes, 1, 1, 0, 4, &[1, 2, 3, 4]);
    for (length, field, stop) in [
        (3, Field::Width, 0),
        (4, Field::Height, 4),
        (11, Field::Compression, 8),
        (15, Field::DecompressedSize, 12),
        (19, Field::PayloadLength, 16),
        (23, Field::Payload, 20),
    ] {
        let mut reader = ByteCursor::new(&bytes[..length]);
        assert_eq!(
            read_mipmap_v2v3(&mut reader, 2, MipmapFormat::R8),
            Err(TexFailure::at(TexError::TruncatedStream, field))
        );
        assert_eq!(reader.tell(), stop);
    }
}

#[test]
fn truncated_texture_names_its_fields() {
    let bytes = minimal_texture();
    for (length, field, stop) in [
        (16, Field::SecondMagic, 9),
        (17, Field::SecondMagic, 17),
        (18, Field::PixelFormat, 18),
        (25, Field::Flags, 22),
        (29, Field::TexWidth, 26),
        (30, Field::TexHeight, 30),
        (37, Field::ImgWidth, 34),
        (41, Field::ImgHeight, 38),
        (45, Field::Reserved, 42),
        (46, Field::ContainerMagic, 46),
    ] {
        let mut reader = ByteCursor::new(&bytes[..length]);
        assert_eq!(
            read_texture(&mut reader, "t"),
            Err(TexFailure::at(TexError::TruncatedStream, field))
        );
        assert_eq!(reader.tell(), stop);
    }
}
