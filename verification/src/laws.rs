//! What holds of every decoding, proved from the definitions in `texture`.

use crate::cursor::{
    ascii_bytes, in_bounds, lemma_read_ascii_text, signed, spec_read_n_string, u32_at,
};
use crate::dxt::spec_decode_blocks;
use crate::enums::{FreeImageFormat, MipmapFormat, TexFormat};
use crate::error::{Field, TexError, TexFailure};
use crate::lz4::spec_decompress_payload;
use crate::texture::{
    spec_container_version, spec_get_mipmap_format, spec_inflate, spec_normalize,
    spec_read_header, spec_read_image, spec_read_image_container, spec_read_images,
    spec_read_mipmap, spec_read_mipmaps, spec_read_texture, texture_outcome, ContainerData,
    MipmapData, Tex, TexData,
};
use vstd::prelude::*;
use vstd::utf8::{is_ascii_chars, valid_utf8};

verus! {

/// A mipmap record of version 1 is never compressed and has no decompressed
/// size: what is read of it is its width, its height and its length-prefixed
/// payload, twelve bytes and the payload in all.
pub proof fn lemma_v1_record_is_plain(bytes: Seq<u8>, pos: int, format: MipmapFormat)
    ensures
        spec_read_mipmap(bytes, pos, 1, format).0 matches Ok(m) ==> {
            &&& !m.lz4_compressed
            &&& m.decompressed_bytes_count == 0
            &&& m.version == 1
            &&& m.bytes.len() == u32_at(bytes, pos + 8)
            &&& spec_read_mipmap(bytes, pos, 1, format).1 == pos + 12 + m.bytes.len()
            &&& spec_inflate(m) == Ok::<MipmapData, TexError>(m)
        },
{
}

/// A record of version 2 or 3 whose flag word is 1 is decompressed: it is
/// handed out only where the decompressor gives exactly as many bytes as the
/// record promised, and it is no longer marked as compressed.
pub proof fn lemma_flagged_record_is_decompressed(
    bytes: Seq<u8>,
    pos: int,
    version: u8,
    format: MipmapFormat,
)
    requires
        version == 2 || version == 3,
        in_bounds(bytes, pos, 16),
        u32_at(bytes, pos + 8) == 1,
    ensures
        spec_read_mipmap(bytes, pos, version, format).0 matches Ok(raw) ==> {
            &&& raw.lz4_compressed
            &&& raw.decompressed_bytes_count == u32_at(bytes, pos + 12)
            &&& match spec_inflate(raw) {
                Ok(m) => {
                    &&& !m.lz4_compressed
                    &&& m.bytes.len() == raw.decompressed_bytes_count
                    &&& spec_decompress_payload(raw.bytes, raw.decompressed_bytes_count) == Ok::<
                        Seq<u8>,
                        TexError,
                    >(m.bytes)
                },
                Err(e) => e == TexError::DecompressionFailure && spec_normalize(raw) == Err::<
                    MipmapData,
                    TexError,
                >(e),
            }
        },
{
}

/// The eight bytes that spell the first magic, `TEXV0005`.
pub open spec fn first_magic() -> Seq<u8> {
    seq![0x54u8, 0x45, 0x58, 0x56, 0x30, 0x30, 0x30, 0x35]
}

/// The eight bytes that spell the second magic, `TEXI0001`.
pub open spec fn second_magic() -> Seq<u8> {
    seq![0x54u8, 0x45, 0x58, 0x49, 0x30, 0x30, 0x30, 0x31]
}

/// Whether the bytes at `pos` begin as a texture does: the first magic, a
/// separator byte, the second magic, a separator byte.
pub open spec fn has_texture_magics(bytes: Seq<u8>, pos: int) -> bool {
    &&& in_bounds(bytes, pos, 18)
    &&& bytes.subrange(pos, pos + 8) == first_magic()
    &&& bytes.subrange(pos + 9, pos + 17) == second_magic()
}

/// The magics are read as their texts.
proof fn lemma_magic_texts()
    ensures
        is_ascii_chars("TEXV0005"@),
        is_ascii_chars("TEXI0001"@),
        "TEXV0005"@.len() == 8,
        "TEXI0001"@.len() == 8,
        ascii_bytes("TEXV0005"@) == first_magic(),
        ascii_bytes("TEXI0001"@) == second_magic(),
{
    reveal_strlit("TEXV0005");
    reveal_strlit("TEXI0001");
    assert(ascii_bytes("TEXV0005"@) =~= first_magic());
    assert(ascii_bytes("TEXI0001"@) =~= second_magic());
}

/// Eight bytes of text other than the first magic at the start are no
/// error: the record is skipped, and nothing after those eight bytes is
/// read.
pub proof fn lemma_first_magic_mismatch(bytes: Seq<u8>, pos: int, name: Seq<char>)
    requires
        in_bounds(bytes, pos, 8),
        valid_utf8(bytes.subrange(pos, pos + 8)),
        bytes.subrange(pos, pos + 8) != first_magic(),
    ensures
        spec_read_texture(bytes, pos, name) == (Ok::<Option<TexData>, TexFailure>(None), pos + 8),
{
    lemma_magic_texts();
    lemma_read_ascii_text(bytes, pos, "TEXV0005"@);
}

/// After the first magic and its separator, eight bytes of text other than
/// the second magic make the record one to be skipped as well.
pub proof fn lemma_second_magic_mismatch(bytes: Seq<u8>, pos: int, name: Seq<char>)
    requires
        in_bounds(bytes, pos, 17),
        bytes.subrange(pos, pos + 8) == first_magic(),
        valid_utf8(bytes.subrange(pos + 9, pos + 17)),
        bytes.subrange(pos + 9, pos + 17) != second_magic(),
    ensures
        spec_read_texture(bytes, pos, name) == (Ok::<Option<TexData>, TexFailure>(None), pos + 17),
{
    lemma_magic_texts();
    lemma_read_ascii_text(bytes, pos, "TEXV0005"@);
    lemma_read_ascii_text(bytes, pos + 9, "TEXI0001"@);
}

/// An animated texture is skipped, whatever follows its header: the decoding
/// ends right after the header.
pub proof fn lemma_animated_is_skipped(bytes: Seq<u8>, pos: int, name: Seq<char>)
    requires
        has_texture_magics(bytes, pos),
        spec_read_header(bytes, pos + 18).0 matches Ok(header) && header.flags.spec_is_gif(),
    ensures
        spec_read_texture(bytes, pos, name) == (Ok::<Option<TexData>, TexFailure>(None), pos + 46),
{
    lemma_magic_texts();
    lemma_read_ascii_text(bytes, pos, "TEXV0005"@);
    lemma_read_ascii_text(bytes, pos + 9, "TEXI0001"@);
}

/// A container whose magic names none of the versions 1, 2 and 3 is refused
/// once its image count has been read: no image record is looked at.
pub proof fn lemma_unknown_version_is_refused(bytes: Seq<u8>, pos: int, tex_format: TexFormat)
    requires
        in_bounds(bytes, pos, 13),
        spec_read_n_string(bytes, pos, 8).0 matches Ok(magic) && spec_container_version(magic)
            is None,
    ensures
        spec_read_image_container(bytes, pos, tex_format) == (
            Err::<ContainerData, TexFailure>(
                TexFailure::spec_at(TexError::UnsupportedVersion, Field::ContainerMagic),
            ),
            pos + 13,
        ),
{
}

/// The same holds of a whole texture: with an unknown container magic after
/// a header that is not animated, decoding fails right after the container's
/// image count.
pub proof fn lemma_texture_with_unknown_version(bytes: Seq<u8>, pos: int, name: Seq<char>)
    requires
        has_texture_magics(bytes, pos),
        spec_read_header(bytes, pos + 18).0 matches Ok(header) && !header.flags.spec_is_gif(),
        in_bounds(bytes, pos + 46, 13),
        spec_read_n_string(bytes, pos + 46, 8).0 matches Ok(magic) && spec_container_version(
            magic,
        ) is None,
    ensures
        spec_read_texture(bytes, pos, name) == (
            Err::<Option<TexData>, TexFailure>(
                TexFailure::spec_at(TexError::UnsupportedVersion, Field::ContainerMagic),
            ),
            pos + 59,
        ),
{
    lemma_magic_texts();
    lemma_read_ascii_text(bytes, pos, "TEXV0005"@);
    lemma_read_ascii_text(bytes, pos + 9, "TEXI0001"@);
}

/// Decoding the same bytes from the same position under the same name twice
/// gives the same outcome: equal textures, or the same skip, or the same
/// error.
pub proof fn lemma_decoding_is_repeatable(
    bytes: Seq<u8>,
    pos: int,
    name: Seq<char>,
    first: Result<Option<Tex>, TexFailure>,
    second: Result<Option<Tex>, TexFailure>,
)
    requires
        texture_outcome(first, spec_read_texture(bytes, pos, name).0),
        texture_outcome(second, spec_read_texture(bytes, pos, name).0),
    ensures
        match (first, second) {
            (Ok(Some(a)), Ok(Some(b))) => a@ == b@,
            (Ok(None), Ok(None)) => true,
            (Err(a), Err(b)) => a == b,
            _ => false,
        },
{
}

/// In a container without a codec format the mipmaps are read in the
/// texture's own pixel layout, which no codec owns: the three DXT layouts as
/// their block-compressed formats, the others as they are.
pub proof fn lemma_sentinel_keeps_the_pixel_format(tex_format: TexFormat)
    ensures
        !spec_get_mipmap_format(FreeImageFormat::FIF_UNKNOWN, tex_format).spec_is_codec_owned(),
        tex_format == TexFormat::DXT1 <==> spec_get_mipmap_format(
            FreeImageFormat::FIF_UNKNOWN,
            tex_format,
        ) == MipmapFormat::CompressedDXT1,
        tex_format == TexFormat::DXT3 <==> spec_get_mipmap_format(
            FreeImageFormat::FIF_UNKNOWN,
            tex_format,
        ) == MipmapFormat::CompressedDXT3,
        tex_format == TexFormat::DXT5 <==> spec_get_mipmap_format(
            FreeImageFormat::FIF_UNKNOWN,
            tex_format,
        ) == MipmapFormat::CompressedDXT5,
{
}

/// In a container with a codec format the mipmaps are the codec's, whatever
/// the texture's pixel layout: their format is the one numbered 1000 above
/// the codec format, and normalizing leaves their bytes to the codec.
pub proof fn lemma_codec_format_owns_the_bytes(
    image_format: FreeImageFormat,
    tex_format: TexFormat,
    m: MipmapData,
)
    requires
        image_format != FreeImageFormat::FIF_UNKNOWN,
        m.format == spec_get_mipmap_format(image_format, tex_format),
    ensures
        m.format.spec_is_codec_owned(),
        m.format.spec_code() == 1000 + image_format.spec_code(),
        spec_normalize(m) == spec_inflate(m),
        !m.lz4_compressed ==> spec_normalize(m) == Ok::<MipmapData, TexError>(m),
{
}

/// What normalizing makes of a block-compressed mipmap: `RGBA8888` pixels,
/// four bytes for each of its `width * height` texels, decoded from the
/// decompressed payload.
pub proof fn lemma_blocks_become_pixels(m: MipmapData)
    requires
        m.format.spec_is_block_compressed(),
    ensures
        spec_normalize(m) matches Ok(out) ==> {
            &&& out.format == MipmapFormat::RGBA8888
            &&& out.bytes.len() == m.width * m.height * 4
            &&& !out.lz4_compressed
            &&& out.width == m.width && out.height == m.height
            &&& spec_inflate(m) matches Ok(inflated) && spec_decode_blocks(
                m.format,
                inflated.bytes,
                m.width,
                m.height,
            ) == Some(out.bytes)
        },
{
}

/// What normalizing makes of a mipmap that is not block-compressed: only a
/// compressed payload changes; size, format and version stay.
pub proof fn lemma_other_formats_keep_their_bytes(m: MipmapData)
    requires
        !m.format.spec_is_block_compressed(),
    ensures
        spec_normalize(m) == spec_inflate(m),
        !m.lz4_compressed ==> spec_normalize(m) == Ok::<MipmapData, TexError>(m),
{
}

/// A failure among `count` mipmap records names the mipmap it was found in,
/// and a field unless the version has no layout.
pub proof fn lemma_mipmap_failure_is_located(
    bytes: Seq<u8>,
    pos: int,
    version: u8,
    format: MipmapFormat,
    count: nat,
    done: Seq<MipmapData>,
)
    requires
        done.len() + count <= u32::MAX,
    ensures
        spec_read_mipmaps(bytes, pos, version, format, count, done).0 matches Err(failure) ==> {
            &&& failure.mipmap matches Some(index) && done.len() <= index < done.len() + count
            &&& failure.image is None
            &&& 1 <= version <= 3 ==> failure.field is Some
        },
    decreases count,
{
    if count > 0 {
        if let (Ok(raw), end) = spec_read_mipmap(bytes, pos, version, format) {
            if let Ok(m) = spec_normalize(raw) {
                lemma_mipmap_failure_is_located(
                    bytes,
                    end,
                    version,
                    format,
                    (count - 1) as nat,
                    done.push(m),
                );
            }
        }
    }
}

/// A failure among `count` images names the image it was found in, and the
/// mipmap unless it lies in the image's mipmap count.
pub proof fn lemma_image_failure_is_located(
    bytes: Seq<u8>,
    pos: int,
    version: u8,
    format: MipmapFormat,
    count: nat,
    done: Seq<Seq<MipmapData>>,
)
    requires
        done.len() + count <= u32::MAX,
    ensures
        spec_read_images(bytes, pos, version, format, count, done).0 matches Err(failure) ==> {
            &&& failure.image matches Some(index) && done.len() <= index < done.len() + count
            &&& failure.mipmap is Some || failure.field == Some(Field::MipmapCount)
            &&& 1 <= version <= 3 ==> failure.field is Some
        },
    decreases count,
{
    if count > 0 {
        lemma_mipmap_failure_is_located(
            bytes,
            pos + 4,
            version,
            format,
            u32_at(bytes, pos) as nat,
            Seq::empty(),
        );
        if let (Ok(image), end) = spec_read_image(bytes, pos, version, format) {
            lemma_image_failure_is_located(
                bytes,
                end,
                version,
                format,
                (count - 1) as nat,
                done.push(image),
            );
        }
    }
}

/// Every failure to decode a texture says where it was found: it names a
/// field, and the image and mipmap exactly where it lies inside one. Only a
/// failure inside an image names an image, and it is one of those that the
/// container counts.
pub proof fn lemma_failure_is_located(bytes: Seq<u8>, pos: int, name: Seq<char>)
    ensures
        spec_read_texture(bytes, pos, name).0 matches Err(failure) ==> {
            &&& failure.field is Some
            &&& failure.mipmap is Some ==> failure.image is Some
            &&& failure.image matches Some(index) ==> {
                &&& index < u32_at(bytes, pos + 55)
                &&& failure.mipmap is Some || failure.field == Some(Field::MipmapCount)
            }
        },
{
    if let (Ok(header), after_header) = spec_read_header(bytes, pos + 18) {
        if let (Ok(magic), _) = spec_read_n_string(bytes, after_header, 8) {
            if let Some(version) = spec_container_version(magic) {
                let code = if version == 3 {
                    signed(u32_at(bytes, after_header + 13))
                } else {
                    -1i32
                };
                let start = if version == 3 {
                    after_header + 17
                } else {
                    after_header + 13
                };
                if let Ok(image_format) = FreeImageFormat::spec_try_from(code) {
                    lemma_image_failure_is_located(
                        bytes,
                        start,
                        version,
                        spec_get_mipmap_format(image_format, header.format),
                        u32_at(bytes, after_header + 9) as nat,
                        Seq::empty(),
                    );
                }
            }
        }
    }
}

} // verus!
