//! The texture decoder: the records of a TEX file, what a sequence of bytes
//! decodes to, and the functions that decode it.

use crate::cursor::{in_bounds, signed, spec_read_bytes, spec_read_n_string, u32_at, ByteCursor};
use crate::dxt::{decode_blocks, spec_decode_blocks};
use crate::enums::{
    image2mipmap, spec_image2mipmap, FreeImageFormat, MipmapFormat, TexFlags, TexFormat,
};
use crate::error::{truncated, Field, TexError, TexFailure};
use crate::lz4::{decompress_payload, spec_decompress_payload};
use vstd::prelude::*;

verus! {

// Fields

/// A little-endian `u32` at `pos` that is the field `field` of a record.
pub open spec fn spec_read_u32_field(bytes: Seq<u8>, pos: int, field: Field) -> (
    Result<u32, TexFailure>,
    int,
) {
    if in_bounds(bytes, pos, 4) {
        (Ok(u32_at(bytes, pos)), pos + 4)
    } else {
        (Err(truncated(field)), pos)
    }
}

/// A little-endian `i32` at `pos` that is the field `field` of a record.
pub open spec fn spec_read_i32_field(bytes: Seq<u8>, pos: int, field: Field) -> (
    Result<i32, TexFailure>,
    int,
) {
    if in_bounds(bytes, pos, 4) {
        (Ok(signed(u32_at(bytes, pos))), pos + 4)
    } else {
        (Err(truncated(field)), pos)
    }
}

/// A magic at `pos`: eight bytes of text.
pub open spec fn spec_read_magic(bytes: Seq<u8>, pos: int, field: Field) -> (
    Result<Seq<char>, TexFailure>,
    int,
) {
    match spec_read_n_string(bytes, pos, 8) {
        (Ok(magic), end) => (Ok(magic), end),
        (Err(e), end) => (Err(TexFailure::spec_at(e, field)), end),
    }
}

/// The separator byte at `pos` that follows the magic `field`; its value is
/// not looked at.
pub open spec fn spec_skip_separator(bytes: Seq<u8>, pos: int, field: Field) -> (
    Result<(), TexFailure>,
    int,
) {
    if in_bounds(bytes, pos, 1) {
        (Ok(()), pos + 1)
    } else {
        (Err(truncated(field)), pos)
    }
}

/// Reads the `u32` field `field`.
fn read_u32_field(reader: &mut ByteCursor, field: Field) -> (r: Result<u32, TexFailure>)
    ensures
        final(reader).bytes() == old(reader).bytes(),
        (r, final(reader).position()) == spec_read_u32_field(
            old(reader).bytes(),
            old(reader).position(),
            field,
        ),
{
    match reader.read_u32() {
        Ok(v) => Ok(v),
        Err(e) => Err(TexFailure::at(e, field)),
    }
}

/// Reads the `i32` field `field`.
fn read_i32_field(reader: &mut ByteCursor, field: Field) -> (r: Result<i32, TexFailure>)
    ensures
        final(reader).bytes() == old(reader).bytes(),
        (r, final(reader).position()) == spec_read_i32_field(
            old(reader).bytes(),
            old(reader).position(),
            field,
        ),
{
    match reader.read_i32() {
        Ok(v) => Ok(v),
        Err(e) => Err(TexFailure::at(e, field)),
    }
}

/// Reads the magic `field`.
fn read_magic(reader: &mut ByteCursor, field: Field) -> (r: Result<String, TexFailure>)
    ensures
        final(reader).bytes() == old(reader).bytes(),
        match spec_read_magic(old(reader).bytes(), old(reader).position(), field) {
            (Ok(magic), end) => r matches Ok(v) && v@ == magic && final(reader).position() == end,
            (Err(e), end) => r == Err::<String, TexFailure>(e) && final(reader).position() == end,
        },
{
    match reader.read_n_string(8) {
        Ok(magic) => Ok(magic),
        Err(e) => Err(TexFailure::at(e, field)),
    }
}

/// Skips the separator byte after the magic `field`.
fn skip_separator(reader: &mut ByteCursor, field: Field) -> (r: Result<(), TexFailure>)
    ensures
        final(reader).bytes() == old(reader).bytes(),
        (r, final(reader).position()) == spec_skip_separator(
            old(reader).bytes(),
            old(reader).position(),
            field,
        ),
{
    match reader.read_u8() {
        Ok(_) => Ok(()),
        Err(e) => Err(TexFailure::at(e, field)),
    }
}

/// Whether `text` is the text of `literal`.
fn text_is(text: &String, literal: &str) -> (same: bool)
    ensures
        same == (text@ == literal@),
{
    let other = literal.to_owned();
    *text == other
}

// The header

/// The fixed header of a texture.
#[derive(Debug, Clone, Copy, PartialEq, Eq, Structural)]
pub struct TexHeader {
    /// How the texture's own pixels are laid out.
    pub format: TexFormat,
    pub flags: TexFlags,
    /// The width of the texture.
    pub tex_width: u32,
    /// The height of the texture.
    pub tex_height: u32,
    /// The width of the image inside the texture.
    pub img_width: u32,
    /// The height of the image inside the texture.
    pub img_height: u32,
    /// A field whose meaning is not known; it is kept as it was read.
    pub unk_int0: i32,
}

/// The header at `pos`: seven little-endian fields of four bytes. A pixel
/// format or flag word that does not decode ends the reading right after its
/// field.
pub open spec fn spec_read_header(bytes: Seq<u8>, pos: int) -> (
    Result<TexHeader, TexFailure>,
    int,
) {
    if !in_bounds(bytes, pos, 4) {
        (Err(truncated(Field::PixelFormat)), pos)
    } else {
        match TexFormat::spec_try_from(u32_at(bytes, pos)) {
            Err(e) => (Err(TexFailure::spec_at(e, Field::PixelFormat)), pos + 4),
            Ok(format) => if !in_bounds(bytes, pos + 4, 4) {
                (Err(truncated(Field::Flags)), pos + 4)
            } else {
                match TexFlags::spec_try_from(signed(u32_at(bytes, pos + 4))) {
                    Err(e) => (Err(TexFailure::spec_at(e, Field::Flags)), pos + 8),
                    Ok(flags) => if !in_bounds(bytes, pos + 8, 4) {
                        (Err(truncated(Field::TexWidth)), pos + 8)
                    } else if !in_bounds(bytes, pos + 12, 4) {
                        (Err(truncated(Field::TexHeight)), pos + 12)
                    } else if !in_bounds(bytes, pos + 16, 4) {
                        (Err(truncated(Field::ImgWidth)), pos + 16)
                    } else if !in_bounds(bytes, pos + 20, 4) {
                        (Err(truncated(Field::ImgHeight)), pos + 20)
                    } else if !in_bounds(bytes, pos + 24, 4) {
                        (Err(truncated(Field::Reserved)), pos + 24)
                    } else {
                        (
                            Ok(
                                TexHeader {
                                    format,
                                    flags,
                                    tex_width: u32_at(bytes, pos + 8),
                                    tex_height: u32_at(bytes, pos + 12),
                                    img_width: u32_at(bytes, pos + 16),
                                    img_height: u32_at(bytes, pos + 20),
                                    unk_int0: signed(u32_at(bytes, pos + 24)),
                                },
                            ),
                            pos + 28,
                        )
                    },
                }
            },
        }
    }
}

impl TexHeader {
    /// Reads the header of a texture.
    pub fn new(reader: &mut ByteCursor) -> (r: Result<TexHeader, TexFailure>)
        ensures
            final(reader).bytes() == old(reader).bytes(),
            (r, final(reader).position()) == spec_read_header(
                old(reader).bytes(),
                old(reader).position(),
            ),
    {
        let format = read_u32_field(reader, Field::PixelFormat)?;
        let tex_format = match TexFormat::try_from(format) {
            Ok(v) => v,
            Err(e) => return Err(TexFailure::at(e, Field::PixelFormat)),
        };
        let flag = read_i32_field(reader, Field::Flags)?;
        let tex_flags = match TexFlags::try_from(flag) {
            Ok(v) => v,
            Err(e) => return Err(TexFailure::at(e, Field::Flags)),
        };
        let tex_width = read_u32_field(reader, Field::TexWidth)?;
        let tex_height = read_u32_field(reader, Field::TexHeight)?;
        let img_width = read_u32_field(reader, Field::ImgWidth)?;
        let img_height = read_u32_field(reader, Field::ImgHeight)?;
        let unk_int0 = read_i32_field(reader, Field::Reserved)?;
        Ok(
            TexHeader {
                format: tex_format,
                flags: tex_flags,
                tex_width,
                tex_height,
                img_width,
                img_height,
                unk_int0,
            },
        )
    }
}

// Mipmap records

/// One level of an image: its size and its bytes.
#[derive(Debug, Clone, PartialEq, Eq)]
pub struct TexMipmap {
    width: u32,
    height: u32,
    lz4_compressed: bool,
    decompressed_bytes_count: usize,
    bytes: Vec<u8>,
    version: u8,
    format: MipmapFormat,
}

/// What a `TexMipmap` holds.
pub struct MipmapData {
    pub width: u32,
    pub height: u32,
    /// Whether `bytes` still have to be decompressed.
    pub lz4_compressed: bool,
    /// The size that the record gives for the decompressed bytes; 0 in a
    /// record of version 1, which has no such field.
    pub decompressed_bytes_count: usize,
    pub bytes: Seq<u8>,
    /// The structural version of the record this was read from.
    pub version: u8,
    pub format: MipmapFormat,
}

impl View for TexMipmap {
    type V = MipmapData;

    closed spec fn view(&self) -> MipmapData {
        MipmapData {
            width: self.width,
            height: self.height,
            lz4_compressed: self.lz4_compressed,
            decompressed_bytes_count: self.decompressed_bytes_count,
            bytes: self.bytes@,
            version: self.version,
            format: self.format,
        }
    }
}

impl TexMipmap {
    pub fn width(&self) -> (w: u32)
        ensures
            w == self@.width,
    {
        self.width
    }

    pub fn height(&self) -> (h: u32)
        ensures
            h == self@.height,
    {
        self.height
    }

    pub fn lz4_compressed(&self) -> (b: bool)
        ensures
            b == self@.lz4_compressed,
    {
        self.lz4_compressed
    }

    pub fn decompressed_bytes_count(&self) -> (n: usize)
        ensures
            n == self@.decompressed_bytes_count,
    {
        self.decompressed_bytes_count
    }

    pub fn bytes(&self) -> (bytes: &Vec<u8>)
        ensures
            bytes@ == self@.bytes,
    {
        &self.bytes
    }

    pub fn version(&self) -> (v: u8)
        ensures
            v == self@.version,
    {
        self.version
    }

    pub fn format(&self) -> (f: MipmapFormat)
        ensures
            f == self@.format,
    {
        self.format
    }
}

/// A length-prefixed payload at `pos`: a little-endian `u32` count, and that
/// many bytes.
pub open spec fn spec_read_payload(bytes: Seq<u8>, pos: int) -> (
    Result<Seq<u8>, TexFailure>,
    int,
) {
    if !in_bounds(bytes, pos, 4) {
        (Err(truncated(Field::PayloadLength)), pos)
    } else {
        match spec_read_bytes(bytes, pos + 4, u32_at(bytes, pos) as int) {
            (Ok(payload), end) => (Ok(payload), end),
            (Err(e), end) => (Err(TexFailure::spec_at(e, Field::Payload)), end),
        }
    }
}

/// A mipmap record of version 1 at `pos`: width, height, payload. It has no
/// compression flag and no decompressed size.
pub open spec fn spec_read_mipmap_v1(bytes: Seq<u8>, pos: int, format: MipmapFormat) -> (
    Result<MipmapData, TexFailure>,
    int,
) {
    if !in_bounds(bytes, pos, 4) {
        (Err(truncated(Field::Width)), pos)
    } else if !in_bounds(bytes, pos + 4, 4) {
        (Err(truncated(Field::Height)), pos + 4)
    } else {
        match spec_read_payload(bytes, pos + 8) {
            (Ok(payload), end) => (
                Ok(
                    MipmapData {
                        width: u32_at(bytes, pos),
                        height: u32_at(bytes, pos + 4),
                        lz4_compressed: false,
                        decompressed_bytes_count: 0,
                        bytes: payload,
                        version: 1,
                        format,
                    },
                ),
                end,
            ),
            (Err(e), end) => (Err(e), end),
        }
    }
}

/// A mipmap record of version 2 or 3 at `pos`: width, height, a flag word
/// that says "compressed" when it is exactly 1, the decompressed size, and
/// the payload. Under another version nothing is read.
pub open spec fn spec_read_mipmap_v2v3(
    bytes: Seq<u8>,
    pos: int,
    version: u8,
    format: MipmapFormat,
) -> (Result<MipmapData, TexFailure>, int) {
    if version != 2 && version != 3 {
        (Err(TexFailure::spec_new(TexError::UnsupportedVersion)), pos)
    } else if !in_bounds(bytes, pos, 4) {
        (Err(truncated(Field::Width)), pos)
    } else if !in_bounds(bytes, pos + 4, 4) {
        (Err(truncated(Field::Height)), pos + 4)
    } else if !in_bounds(bytes, pos + 8, 4) {
        (Err(truncated(Field::Compression)), pos + 8)
    } else if !in_bounds(bytes, pos + 12, 4) {
        (Err(truncated(Field::DecompressedSize)), pos + 12)
    } else {
        match spec_read_payload(bytes, pos + 16) {
            (Ok(payload), end) => (
                Ok(
                    MipmapData {
                        width: u32_at(bytes, pos),
                        height: u32_at(bytes, pos + 4),
                        lz4_compressed: u32_at(bytes, pos + 8) == 1,
                        decompressed_bytes_count: u32_at(bytes, pos + 12) as usize,
                        bytes: payload,
                        version,
                        format,
                    },
                ),
                end,
            ),
            (Err(e), end) => (Err(e), end),
        }
    }
}

/// A mipmap record at `pos` in the layout of `version`. A version other than
/// 1, 2 or 3 has no layout: nothing is read, and the outcome is
/// `UnsupportedVersion`.
pub open spec fn spec_read_mipmap(bytes: Seq<u8>, pos: int, version: u8, format: MipmapFormat) -> (
    Result<MipmapData, TexFailure>,
    int,
) {
    if version == 1 {
        spec_read_mipmap_v1(bytes, pos, format)
    } else {
        spec_read_mipmap_v2v3(bytes, pos, version, format)
    }
}

/// How the outcome of reading a mipmap relates to what the bytes hold.
pub open spec fn mipmap_outcome(
    r: Result<TexMipmap, TexFailure>,
    expected: Result<MipmapData, TexFailure>,
) -> bool {
    match expected {
        Ok(data) => r matches Ok(m) && m@ == data,
        Err(e) => r matches Err(got) && got == e,
    }
}

/// Reads a length-prefixed payload.
fn read_bytes(reader: &mut ByteCursor) -> (r: Result<Vec<u8>, TexFailure>)
    ensures
        final(reader).bytes() == old(reader).bytes(),
        match spec_read_payload(old(reader).bytes(), old(reader).position()) {
            (Ok(payload), end) => r matches Ok(v) && v@ == payload && final(reader).position()
                == end,
            (Err(e), end) => r == Err::<Vec<u8>, TexFailure>(e) && final(reader).position()
                == end,
        },
{
    let byte_count = read_u32_field(reader, Field::PayloadLength)?;
    match reader.read_bytes(byte_count as usize) {
        Ok(payload) => Ok(payload),
        Err(e) => Err(TexFailure::at(e, Field::Payload)),
    }
}

/// Reads a mipmap record of version 1. Such a record is never compressed.
pub fn read_mipmap_v1(reader: &mut ByteCursor, format: MipmapFormat) -> (r: Result<
    TexMipmap,
    TexFailure,
>)
    ensures
        final(reader).bytes() == old(reader).bytes(),
        mipmap_outcome(
            r,
            spec_read_mipmap_v1(old(reader).bytes(), old(reader).position(), format).0,
        ),
        final(reader).position() == spec_read_mipmap_v1(
            old(reader).bytes(),
            old(reader).position(),
            format,
        ).1,
        r matches Ok(m) ==> !m@.lz4_compressed && m@.decompressed_bytes_count == 0
            && final(reader).position() == old(reader).position() + 12 + m@.bytes.len(),
{
    let width = read_u32_field(reader, Field::Width)?;
    let height = read_u32_field(reader, Field::Height)?;
    let bytes = read_bytes(reader)?;
    Ok(
        TexMipmap {
            width,
            height,
            lz4_compressed: false,
            decompressed_bytes_count: 0,
            bytes,
            version: 1,
            format,
        },
    )
}

/// Reads a mipmap record of version 2 or 3; under another version it reads
/// nothing and fails with `UnsupportedVersion`.
pub fn read_mipmap_v2v3(reader: &mut ByteCursor, version: u8, format: MipmapFormat) -> (r: Result<
    TexMipmap,
    TexFailure,
>)
    ensures
        final(reader).bytes() == old(reader).bytes(),
        mipmap_outcome(
            r,
            spec_read_mipmap_v2v3(old(reader).bytes(), old(reader).position(), version, format).0,
        ),
        final(reader).position() == spec_read_mipmap_v2v3(
            old(reader).bytes(),
            old(reader).position(),
            version,
            format,
        ).1,
{
    if version != 2 && version != 3 {
        return Err(TexFailure::new(TexError::UnsupportedVersion));
    }
    let width = read_u32_field(reader, Field::Width)?;
    let height = read_u32_field(reader, Field::Height)?;
    let lz4_compressed = read_u32_field(reader, Field::Compression)? == 1;
    let decompressed_bytes_count = read_u32_field(reader, Field::DecompressedSize)? as usize;
    let bytes = read_bytes(reader)?;
    Ok(
        TexMipmap {
            width,
            height,
            lz4_compressed,
            decompressed_bytes_count,
            bytes,
            version,
            format,
        },
    )
}

/// Reads a mipmap record in the layout of `version`.
pub fn read_mipmap(reader: &mut ByteCursor, version: u8, format: MipmapFormat) -> (r: Result<
    TexMipmap,
    TexFailure,
>)
    ensures
        final(reader).bytes() == old(reader).bytes(),
        mipmap_outcome(
            r,
            spec_read_mipmap(old(reader).bytes(), old(reader).position(), version, format).0,
        ),
        final(reader).position() == spec_read_mipmap(
            old(reader).bytes(),
            old(reader).position(),
            version,
            format,
        ).1,
{
    if version == 1 {
        read_mipmap_v1(reader, format)
    } else {
        read_mipmap_v2v3(reader, version, format)
    }
}

// Normalizing a mipmap

/// The first step of normalizing a mipmap: a compressed payload is replaced
/// by its decompressed bytes, which must be as many as the record said.
pub open spec fn spec_inflate(m: MipmapData) -> Result<MipmapData, TexError> {
    if m.lz4_compressed {
        match spec_decompress_payload(m.bytes, m.decompressed_bytes_count) {
            Ok(bytes) => Ok(MipmapData { lz4_compressed: false, bytes, ..m }),
            Err(e) => Err(e),
        }
    } else {
        Ok(m)
    }
}

/// The second step of normalizing a mipmap: texel blocks become RGBA pixels,
/// and the format says so. Bytes that a codec owns, and pixels that are
/// plain already, stay as they are.
pub open spec fn spec_unblock(m: MipmapData) -> Result<MipmapData, TexError> {
    if m.format.spec_is_block_compressed() {
        match spec_decode_blocks(m.format, m.bytes, m.width, m.height) {
            Some(pixels) => Ok(MipmapData { bytes: pixels, format: MipmapFormat::RGBA8888, ..m }),
            None => Err(TexError::DecompressionFailure),
        }
    } else {
        Ok(m)
    }
}

/// A mipmap as it is handed out: decompressed, and in plain pixels unless a
/// codec owns its bytes.
pub open spec fn spec_normalize(m: MipmapData) -> Result<MipmapData, TexError> {
    match spec_inflate(m) {
        Ok(inflated) => spec_unblock(inflated),
        Err(e) => Err(e),
    }
}

/// The format that a mipmap read as `format` has once it is normalized.
pub open spec fn spec_normalized_format(format: MipmapFormat) -> MipmapFormat {
    if format.spec_is_block_compressed() {
        MipmapFormat::RGBA8888
    } else {
        format
    }
}

/// What holds of a mipmap that was read as `format` and normalized: it is
/// decompressed, its format is a plain one or a codec's, and where `format`
/// was block-compressed it holds four bytes for each of its texels.
pub open spec fn mipmap_is_normalized(m: MipmapData, format: MipmapFormat) -> bool {
    &&& !m.lz4_compressed
    &&& m.format == spec_normalized_format(format)
    &&& !m.format.spec_is_block_compressed()
    &&& format.spec_is_block_compressed() ==> m.bytes.len() == m.width * m.height * 4
}

/// Decompresses the payload of a mipmap that is marked as compressed, and
/// clears the mark. The mipmap is left as it was where that fails, and where
/// it was not compressed.
pub fn inflate_mipmap(mipmap: &mut TexMipmap) -> (r: Result<(), TexError>)
    ensures
        match spec_inflate(old(mipmap)@) {
            Ok(m) => r is Ok && final(mipmap)@ == m,
            Err(e) => r == Err::<(), TexError>(e) && final(mipmap)@ == old(mipmap)@,
        },
        old(mipmap)@.lz4_compressed && r is Ok ==> {
            &&& !final(mipmap)@.lz4_compressed
            &&& final(mipmap)@.bytes.len() == old(mipmap)@.decompressed_bytes_count
        },
{
    if mipmap.lz4_compressed {
        match decompress_payload(mipmap.bytes.as_slice(), mipmap.decompressed_bytes_count) {
            Ok(bytes) => {
                mipmap.bytes = bytes;
                mipmap.lz4_compressed = false;
            },
            Err(e) => return Err(e),
        }
    }
    Ok(())
}

/// Turns the texel blocks of a DXT mipmap into RGBA pixels and sets its
/// format to `RGBA8888`. Any other mipmap is left as it is, and so is one
/// whose payload is too short for its size.
pub fn unblock_mipmap(mipmap: &mut TexMipmap) -> (r: Result<(), TexError>)
    ensures
        match spec_unblock(old(mipmap)@) {
            Ok(m) => r is Ok && final(mipmap)@ == m,
            Err(e) => r == Err::<(), TexError>(e) && final(mipmap)@ == old(mipmap)@,
        },
        old(mipmap)@.format.spec_is_block_compressed() && r is Ok ==> {
            &&& final(mipmap)@.format == MipmapFormat::RGBA8888
            &&& final(mipmap)@.bytes.len() == old(mipmap)@.width * old(mipmap)@.height * 4
        },
        old(mipmap)@.format.spec_is_codec_owned() ==> r is Ok && final(mipmap)@ == old(mipmap)@,
{
    if mipmap.format.is_block_compressed() {
        match decode_blocks(mipmap.format, mipmap.bytes.as_slice(), mipmap.width, mipmap.height) {
            Some(pixels) => {
                mipmap.bytes = pixels;
                mipmap.format = MipmapFormat::RGBA8888;
            },
            None => return Err(TexError::DecompressionFailure),
        }
    }
    Ok(())
}

/// Normalizes a mipmap: first `inflate_mipmap`, and where that succeeds
/// `unblock_mipmap`. Where a step fails the mipmap stays as the step found
/// it.
pub fn decompress_mipmap(mipmap: &mut TexMipmap) -> (r: Result<(), TexError>)
    ensures
        match spec_inflate(old(mipmap)@) {
            Ok(inflated) => match spec_unblock(inflated) {
                Ok(m) => r is Ok && final(mipmap)@ == m,
                Err(e) => r == Err::<(), TexError>(e) && final(mipmap)@ == inflated,
            },
            Err(e) => r == Err::<(), TexError>(e) && final(mipmap)@ == old(mipmap)@,
        },
        r is Ok ==> spec_normalize(old(mipmap)@) == Ok::<MipmapData, TexError>(final(mipmap)@),
        r matches Err(e) ==> spec_normalize(old(mipmap)@) == Err::<MipmapData, TexError>(e),
        r is Ok ==> mipmap_is_normalized(final(mipmap)@, old(mipmap)@.format),
{
    match inflate_mipmap(mipmap) {
        Ok(()) => unblock_mipmap(mipmap),
        Err(e) => Err(e),
    }
}

// Images

/// One image: its mipmaps in the order of the stream.
#[derive(Debug, Clone, PartialEq, Eq)]
pub struct TexImage {
    mipmaps: Vec<TexMipmap>,
}

/// What each of a sequence of mipmaps holds.
pub open spec fn mipmaps_data(mipmaps: Seq<TexMipmap>) -> Seq<MipmapData> {
    mipmaps.map_values(|m: TexMipmap| m@)
}

impl View for TexImage {
    type V = Seq<MipmapData>;

    closed spec fn view(&self) -> Seq<MipmapData> {
        mipmaps_data(self.mipmaps@)
    }
}

impl TexImage {
    /// The mipmaps, the first one read first.
    pub fn mipmaps(&self) -> (mipmaps: &Vec<TexMipmap>)
        ensures
            mipmaps_data(mipmaps@) == self@,
    {
        &self.mipmaps
    }
}

/// `count` mipmap records from `pos` on, each normalized as soon as it is
/// read and added to `done`. The first failure ends the reading, at the
/// position that it was found at, and names the index of its mipmap. A
/// payload that cannot be normalized is a failure at the field `Payload`.
pub open spec fn spec_read_mipmaps(
    bytes: Seq<u8>,
    pos: int,
    version: u8,
    format: MipmapFormat,
    count: nat,
    done: Seq<MipmapData>,
) -> (Result<Seq<MipmapData>, TexFailure>, int)
    decreases count,
{
    if count == 0 {
        (Ok(done), pos)
    } else {
        match spec_read_mipmap(bytes, pos, version, format) {
            (Ok(raw), end) => match spec_normalize(raw) {
                Ok(m) => spec_read_mipmaps(
                    bytes,
                    end,
                    version,
                    format,
                    (count - 1) as nat,
                    done.push(m),
                ),
                Err(e) => (
                    Err(TexFailure::spec_at(e, Field::Payload).spec_in_mipmap(done.len() as u32)),
                    end,
                ),
            },
            (Err(e), end) => (Err(e.spec_in_mipmap(done.len() as u32)), end),
        }
    }
}

/// An image at `pos`: a little-endian `u32` count, and that many mipmap
/// records.
pub open spec fn spec_read_image(bytes: Seq<u8>, pos: int, version: u8, format: MipmapFormat) -> (
    Result<Seq<MipmapData>, TexFailure>,
    int,
) {
    if !in_bounds(bytes, pos, 4) {
        (Err(truncated(Field::MipmapCount)), pos)
    } else {
        spec_read_mipmaps(bytes, pos + 4, version, format, u32_at(bytes, pos) as nat, Seq::empty())
    }
}

/// How the outcome of reading an image relates to what the bytes hold.
pub open spec fn image_outcome(
    r: Result<TexImage, TexFailure>,
    expected: Result<Seq<MipmapData>, TexFailure>,
) -> bool {
    match expected {
        Ok(data) => r matches Ok(image) && image@ == data,
        Err(e) => r matches Err(got) && got == e,
    }
}

/// What holds of a mipmap in a container of `version` whose mipmaps are read
/// as `format`: it is normalized and carries the container's version, and a
/// record of version 1 gives no decompressed size.
pub open spec fn mipmap_is_well_formed(m: MipmapData, version: u8, format: MipmapFormat) -> bool {
    &&& mipmap_is_normalized(m, format)
    &&& m.version == version
    &&& version == 1 ==> m.decompressed_bytes_count == 0
}

/// Every mipmap that `spec_read_mipmaps` hands out is well formed, and there
/// are `count` more of them than there were.
pub proof fn lemma_mipmaps_are_well_formed(
    bytes: Seq<u8>,
    pos: int,
    version: u8,
    format: MipmapFormat,
    count: nat,
    done: Seq<MipmapData>,
)
    requires
        forall|j: int| 0 <= j < done.len() ==> mipmap_is_well_formed(done[j], version, format),
    ensures
        spec_read_mipmaps(bytes, pos, version, format, count, done).0 matches Ok(all) ==> {
            &&& all.len() == done.len() + count
            &&& forall|j: int| 0 <= j < all.len() ==> mipmap_is_well_formed(all[j], version, format)
        },
    decreases count,
{
    if count > 0 {
        if let (Ok(raw), end) = spec_read_mipmap(bytes, pos, version, format) {
            if let Ok(m) = spec_normalize(raw) {
                lemma_mipmaps_are_well_formed(
                    bytes,
                    end,
                    version,
                    format,
                    (count - 1) as nat,
                    done.push(m),
                );
            }
        }
    }
}

/// Reads one image: its mipmap count and its mipmaps, each normalized.
pub fn read_image(reader: &mut ByteCursor, version: u8, format: MipmapFormat) -> (r: Result<
    TexImage,
    TexFailure,
>)
    ensures
        final(reader).bytes() == old(reader).bytes(),
        image_outcome(
            r,
            spec_read_image(old(reader).bytes(), old(reader).position(), version, format).0,
        ),
        final(reader).position() == spec_read_image(
            old(reader).bytes(),
            old(reader).position(),
            version,
            format,
        ).1,
        r matches Ok(image) ==> forall|j: int|
            0 <= j < image@.len() ==> mipmap_is_well_formed(image@[j], version, format),
{
    let ghost bytes = reader.bytes();
    let ghost start = reader.position();
    proof {
        lemma_mipmaps_are_well_formed(
            bytes,
            start + 4,
            version,
            format,
            u32_at(bytes, start) as nat,
            Seq::empty(),
        );
    }
    let mut mipmaps: Vec<TexMipmap> = Vec::new();
    let mipmap_count = read_u32_field(reader, Field::MipmapCount)?;
    let ghost goal = spec_read_image(bytes, start, version, format);
    assert(mipmaps_data(mipmaps@) =~= Seq::empty());
    let mut i: u32 = 0;
    while i < mipmap_count
        invariant
            reader.bytes() == old(reader).bytes(),
            bytes == old(reader).bytes(),
            goal == spec_read_image(bytes, old(reader).position(), version, format),
            i <= mipmap_count,
            i == mipmaps@.len(),
            goal == spec_read_mipmaps(
                bytes,
                reader.position(),
                version,
                format,
                (mipmap_count - i) as nat,
                mipmaps_data(mipmaps@),
            ),
        decreases mipmap_count - i,
    {
        let mut mipmap = match read_mipmap(reader, version, format) {
            Ok(m) => m,
            Err(e) => return Err(e.in_mipmap(i)),
        };
        match decompress_mipmap(&mut mipmap) {
            Ok(()) => {},
            Err(e) => return Err(TexFailure::at(e, Field::Payload).in_mipmap(i)),
        }
        let ghost before = mipmaps@;
        mipmaps.push(mipmap);
        assert(mipmaps_data(mipmaps@) =~= mipmaps_data(before).push(mipmap@));
        i = i + 1;
    }
    Ok(TexImage { mipmaps })
}

// The format of a container's mipmaps

/// The format of the mipmaps of a container: the one that stands for the
/// container's codec format where it names one, else the one with the
/// texture's own pixel layout.
pub open spec fn spec_get_mipmap_format(
    image_format: FreeImageFormat,
    tex_format: TexFormat,
) -> MipmapFormat {
    if image_format != FreeImageFormat::FIF_UNKNOWN {
        spec_image2mipmap(image_format)
    } else {
        match tex_format {
            TexFormat::RGBA8888 => MipmapFormat::RGBA8888,
            TexFormat::DXT5 => MipmapFormat::CompressedDXT5,
            TexFormat::DXT3 => MipmapFormat::CompressedDXT3,
            TexFormat::DXT1 => MipmapFormat::CompressedDXT1,
            TexFormat::R8 => MipmapFormat::R8,
            TexFormat::RG88 => MipmapFormat::RG88,
        }
    }
}

/// Resolves the format of a container's mipmaps. A codec format makes them
/// codec-owned; without one they have the texture's own pixel layout.
pub fn get_mipmap_format(image_format: &FreeImageFormat, tex_format: &TexFormat) -> (format:
    MipmapFormat)
    ensures
        format == spec_get_mipmap_format(*image_format, *tex_format),
        format.spec_is_codec_owned() <==> *image_format != FreeImageFormat::FIF_UNKNOWN,
{
    if *image_format != FreeImageFormat::FIF_UNKNOWN {
        return image2mipmap(image_format);
    }
    match *tex_format {
        TexFormat::RGBA8888 => MipmapFormat::RGBA8888,
        TexFormat::DXT5 => MipmapFormat::CompressedDXT5,
        TexFormat::DXT3 => MipmapFormat::CompressedDXT3,
        TexFormat::DXT1 => MipmapFormat::CompressedDXT1,
        TexFormat::R8 => MipmapFormat::R8,
        TexFormat::RG88 => MipmapFormat::RG88,
    }
}

// The image container

/// The images of a texture, in the layout that the container's magic names.
#[derive(Debug, Clone, PartialEq, Eq)]
pub struct TexImageContainer {
    magic: String,
    image_format: FreeImageFormat,
    images: Vec<TexImage>,
    version: u8,
}

/// What a `TexImageContainer` holds.
pub struct ContainerData {
    /// The magic as it was read, eight characters of which the last is the
    /// version's digit.
    pub magic: Seq<char>,
    pub image_format: FreeImageFormat,
    pub images: Seq<Seq<MipmapData>>,
    /// The structural version: 1, 2 or 3.
    pub version: u8,
}

/// What each of a sequence of images holds.
pub open spec fn images_data(images: Seq<TexImage>) -> Seq<Seq<MipmapData>> {
    images.map_values(|image: TexImage| image@)
}

impl View for TexImageContainer {
    type V = ContainerData;

    closed spec fn view(&self) -> ContainerData {
        ContainerData {
            magic: self.magic@,
            image_format: self.image_format,
            images: images_data(self.images@),
            version: self.version,
        }
    }
}

impl TexImageContainer {
    pub fn magic(&self) -> (magic: &String)
        ensures
            magic@ == self@.magic,
    {
        &self.magic
    }

    pub fn image_format(&self) -> (format: FreeImageFormat)
        ensures
            format == self@.image_format,
    {
        self.image_format
    }

    /// The images, the first one read first.
    pub fn images(&self) -> (images: &Vec<TexImage>)
        ensures
            images_data(images@) == self@.images,
    {
        &self.images
    }

    pub fn version(&self) -> (version: u8)
        ensures
            version == self@.version,
    {
        self.version
    }
}

/// The structural version that a container's magic names, if it names one.
pub open spec fn spec_container_version(magic: Seq<char>) -> Option<u8> {
    if magic == "TEXB0001"@ {
        Some(1u8)
    } else if magic == "TEXB0002"@ {
        Some(2u8)
    } else if magic == "TEXB0003"@ {
        Some(3u8)
    } else {
        None
    }
}

/// `count` images from `pos` on, added to `done`. The first failure ends the
/// reading, and names the index of its image.
pub open spec fn spec_read_images(
    bytes: Seq<u8>,
    pos: int,
    version: u8,
    format: MipmapFormat,
    count: nat,
    done: Seq<Seq<MipmapData>>,
) -> (Result<Seq<Seq<MipmapData>>, TexFailure>, int)
    decreases count,
{
    if count == 0 {
        (Ok(done), pos)
    } else {
        match spec_read_image(bytes, pos, version, format) {
            (Ok(image), end) => spec_read_images(
                bytes,
                end,
                version,
                format,
                (count - 1) as nat,
                done.push(image),
            ),
            (Err(e), end) => (Err(e.spec_in_image(done.len() as u32)), end),
        }
    }
}

/// What follows the magic, the separator and the image count of a container
/// of `version`, from `pos` on: in version 3 the code of the codec format,
/// which is -1 in the others without being stored, and the images.
pub open spec fn spec_read_container_body(
    bytes: Seq<u8>,
    pos: int,
    magic: Seq<char>,
    version: u8,
    count: u32,
    tex_format: TexFormat,
) -> (Result<ContainerData, TexFailure>, int) {
    if version == 3 && !in_bounds(bytes, pos, 4) {
        (Err(truncated(Field::ImageFormat)), pos)
    } else {
        let code = if version == 3 {
            signed(u32_at(bytes, pos))
        } else {
            -1i32
        };
        let start = if version == 3 {
            pos + 4
        } else {
            pos
        };
        match FreeImageFormat::spec_try_from(code) {
            Err(e) => (Err(TexFailure::spec_at(e, Field::ImageFormat)), start),
            Ok(image_format) => match spec_read_images(
                bytes,
                start,
                version,
                spec_get_mipmap_format(image_format, tex_format),
                count as nat,
                Seq::empty(),
            ) {
                (Ok(images), end) => (
                    Ok(ContainerData { magic, image_format, images, version }),
                    end,
                ),
                (Err(e), end) => (Err(e), end),
            },
        }
    }
}

/// The image container at `pos`: a magic of eight bytes, one separator byte
/// that is skipped, the image count, and what `spec_read_container_body`
/// describes. A magic that names no version is refused once the count has
/// been read, before anything after it.
pub open spec fn spec_read_image_container(bytes: Seq<u8>, pos: int, tex_format: TexFormat) -> (
    Result<ContainerData, TexFailure>,
    int,
) {
    match spec_read_n_string(bytes, pos, 8) {
        (Err(e), end) => (Err(TexFailure::spec_at(e, Field::ContainerMagic)), end),
        (Ok(magic), _) => if !in_bounds(bytes, pos + 8, 1) {
            (Err(truncated(Field::ContainerMagic)), pos + 8)
        } else if !in_bounds(bytes, pos + 9, 4) {
            (Err(truncated(Field::ImageCount)), pos + 9)
        } else {
            match spec_container_version(magic) {
                None => (
                    Err(TexFailure::spec_at(TexError::UnsupportedVersion, Field::ContainerMagic)),
                    pos + 13,
                ),
                Some(version) => spec_read_container_body(
                    bytes,
                    pos + 13,
                    magic,
                    version,
                    u32_at(bytes, pos + 9),
                    tex_format,
                ),
            }
        },
    }
}

/// How the outcome of reading a container relates to what the bytes hold.
pub open spec fn container_outcome(
    r: Result<TexImageContainer, TexFailure>,
    expected: Result<ContainerData, TexFailure>,
) -> bool {
    match expected {
        Ok(data) => r matches Ok(container) && container@ == data,
        Err(e) => r matches Err(got) && got == e,
    }
}

impl ContainerData {
    /// What holds of the container of a texture whose pixels are laid out
    /// as `tex_format` says.
    pub open spec fn well_formed(self, tex_format: TexFormat) -> bool {
        &&& spec_container_version(self.magic) == Some(self.version)
        &&& 1 <= self.version <= 3
        &&& self.version != 3 ==> self.image_format == FreeImageFormat::FIF_UNKNOWN
        &&& forall|i: int, j: int|
            0 <= i < self.images.len() && 0 <= j < self.images[i].len()
                ==> mipmap_is_well_formed(
                #[trigger] self.images[i][j],
                self.version,
                spec_get_mipmap_format(self.image_format, tex_format),
            )
    }
}

/// Every image that `spec_read_images` hands out holds well-formed mipmaps,
/// and there are `count` more images than there were.
pub proof fn lemma_images_are_well_formed(
    bytes: Seq<u8>,
    pos: int,
    version: u8,
    format: MipmapFormat,
    count: nat,
    done: Seq<Seq<MipmapData>>,
)
    requires
        forall|i: int, j: int|
            0 <= i < done.len() && 0 <= j < done[i].len() ==> mipmap_is_well_formed(
                #[trigger] done[i][j],
                version,
                format,
            ),
    ensures
        spec_read_images(bytes, pos, version, format, count, done).0 matches Ok(all) ==> {
            &&& all.len() == done.len() + count
            &&& forall|i: int, j: int|
                0 <= i < all.len() && 0 <= j < all[i].len() ==> mipmap_is_well_formed(
                    #[trigger] all[i][j],
                    version,
                    format,
                )
        },
    decreases count,
{
    if count > 0 {
        if let (Ok(image), end) = spec_read_image(bytes, pos, version, format) {
            lemma_mipmaps_are_well_formed(
                bytes,
                pos + 4,
                version,
                format,
                u32_at(bytes, pos) as nat,
                Seq::empty(),
            );
            lemma_images_are_well_formed(
                bytes,
                end,
                version,
                format,
                (count - 1) as nat,
                done.push(image),
            );
        }
    }
}

/// A container that decodes is well formed, and holds as many images as its
/// count says.
pub proof fn lemma_container_is_well_formed(bytes: Seq<u8>, pos: int, tex_format: TexFormat)
    ensures
        spec_read_image_container(bytes, pos, tex_format).0 matches Ok(container) ==> {
            &&& container.well_formed(tex_format)
            &&& container.images.len() == u32_at(bytes, pos + 9)
        },
{
    if let (Ok(magic), _) = spec_read_n_string(bytes, pos, 8) {
        if let Some(version) = spec_container_version(magic) {
            let code = if version == 3 {
                signed(u32_at(bytes, pos + 13))
            } else {
                -1i32
            };
            let start = if version == 3 {
                pos + 17
            } else {
                pos + 13
            };
            if let Ok(image_format) = FreeImageFormat::spec_try_from(code) {
                lemma_images_are_well_formed(
                    bytes,
                    start,
                    version,
                    spec_get_mipmap_format(image_format, tex_format),
                    u32_at(bytes, pos + 9) as nat,
                    Seq::empty(),
                );
            }
        }
    }
}

/// The structural version that a container's magic names.
fn container_version(magic: &String) -> (version: Option<u8>)
    ensures
        version == spec_container_version(magic@),
{
    if text_is(magic, "TEXB0001") {
        Some(1)
    } else if text_is(magic, "TEXB0002") {
        Some(2)
    } else if text_is(magic, "TEXB0003") {
        Some(3)
    } else {
        None
    }
}

/// Reads the image container of a texture whose pixels are laid out as
/// `tex_format` says.
pub fn read_image_container(reader: &mut ByteCursor, tex_format: TexFormat) -> (r: Result<
    TexImageContainer,
    TexFailure,
>)
    ensures
        final(reader).bytes() == old(reader).bytes(),
        container_outcome(
            r,
            spec_read_image_container(old(reader).bytes(), old(reader).position(), tex_format).0,
        ),
        final(reader).position() == spec_read_image_container(
            old(reader).bytes(),
            old(reader).position(),
            tex_format,
        ).1,
        r matches Ok(container) ==> container@.well_formed(tex_format),
{
    let ghost bytes = reader.bytes();
    proof {
        lemma_container_is_well_formed(bytes, reader.position(), tex_format);
    }
    let ghost goal = spec_read_image_container(bytes, reader.position(), tex_format);
    let magic = read_magic(reader, Field::ContainerMagic)?;
    skip_separator(reader, Field::ContainerMagic)?;
    let img_count = read_u32_field(reader, Field::ImageCount)?;
    let container_version = match container_version(&magic) {
        Some(v) => v,
        None => return Err(TexFailure::at(TexError::UnsupportedVersion, Field::ContainerMagic)),
    };
    let format = if container_version == 3 {
        read_i32_field(reader, Field::ImageFormat)?
    } else {
        -1
    };
    let container_format = match FreeImageFormat::try_from(format) {
        Ok(v) => v,
        Err(e) => return Err(TexFailure::at(e, Field::ImageFormat)),
    };
    let mipmap_format = get_mipmap_format(&container_format, &tex_format);
    let mut images: Vec<TexImage> = Vec::new();
    assert(images_data(images@) =~= Seq::empty());
    let mut i: u32 = 0;
    while i < img_count
        invariant
            reader.bytes() == old(reader).bytes(),
            bytes == old(reader).bytes(),
            goal == spec_read_image_container(bytes, old(reader).position(), tex_format),
            i <= img_count,
            i == images@.len(),
            match spec_read_images(
                bytes,
                reader.position(),
                container_version,
                mipmap_format,
                (img_count - i) as nat,
                images_data(images@),
            ) {
                (Ok(all), end) => goal == (
                    Ok::<ContainerData, TexFailure>(
                        ContainerData {
                            magic: magic@,
                            image_format: container_format,
                            images: all,
                            version: container_version,
                        },
                    ),
                    end,
                ),
                (Err(e), end) => goal == (Err::<ContainerData, TexFailure>(e), end),
            },
        decreases img_count - i,
    {
        let image = match read_image(reader, container_version, mipmap_format) {
            Ok(v) => v,
            Err(e) => return Err(e.in_image(i)),
        };
        let ghost before = images@;
        images.push(image);
        assert(images_data(images@) =~= images_data(before).push(image@));
        i = i + 1;
    }
    Ok(
        TexImageContainer {
            magic,
            image_format: container_format,
            images,
            version: container_version,
        },
    )
}

// The texture

/// A decoded texture. One exists only for a record whose two magics are the
/// expected ones and whose header is not marked as animated.
#[derive(Debug, Clone, PartialEq, Eq)]
pub struct Tex {
    name: String,
    magic1: String,
    magic2: String,
    header: TexHeader,
    image_container: TexImageContainer,
    is_gif: bool,
}

/// What a `Tex` holds.
pub struct TexData {
    /// The name that the caller gave; it is not read from the bytes.
    pub name: Seq<char>,
    pub magic1: Seq<char>,
    pub magic2: Seq<char>,
    pub header: TexHeader,
    pub image_container: ContainerData,
    /// Whether the texture is animated; never so in a decoded texture.
    pub is_gif: bool,
}

impl View for Tex {
    type V = TexData;

    closed spec fn view(&self) -> TexData {
        TexData {
            name: self.name@,
            magic1: self.magic1@,
            magic2: self.magic2@,
            header: self.header,
            image_container: self.image_container@,
            is_gif: self.is_gif,
        }
    }
}

impl Tex {
    pub fn name(&self) -> (name: &String)
        ensures
            name@ == self@.name,
    {
        &self.name
    }

    pub fn magic1(&self) -> (magic: &String)
        ensures
            magic@ == self@.magic1,
    {
        &self.magic1
    }

    pub fn magic2(&self) -> (magic: &String)
        ensures
            magic@ == self@.magic2,
    {
        &self.magic2
    }

    pub fn header(&self) -> (header: &TexHeader)
        ensures
            *header == self@.header,
    {
        &self.header
    }

    pub fn image_container(&self) -> (container: &TexImageContainer)
        ensures
            container@ == self@.image_container,
    {
        &self.image_container
    }

    pub fn is_gif(&self) -> (b: bool)
        ensures
            b == self@.is_gif,
    {
        self.is_gif
    }
}

/// What the bytes from `pos` on decode to, and where the decoding ends.
///
/// `Ok(None)` says that they are not a texture that this decoder takes: the
/// first magic is not `TEXV0005`, or the second is not `TEXI0001`, or the
/// header marks the texture as animated. In each case the decoding ends
/// right there: after the magic that did not match, or after the header.
pub open spec fn spec_read_texture(bytes: Seq<u8>, pos: int, name: Seq<char>) -> (
    Result<Option<TexData>, TexFailure>,
    int,
) {
    match spec_read_n_string(bytes, pos, 8) {
        (Err(e), end) => (Err(TexFailure::spec_at(e, Field::FirstMagic)), end),
        (Ok(magic1), _) => if magic1 != "TEXV0005"@ {
            (Ok(None), pos + 8)
        } else if !in_bounds(bytes, pos + 8, 1) {
            (Err(truncated(Field::FirstMagic)), pos + 8)
        } else {
            match spec_read_n_string(bytes, pos + 9, 8) {
                (Err(e), end) => (Err(TexFailure::spec_at(e, Field::SecondMagic)), end),
                (Ok(magic2), _) => if magic2 != "TEXI0001"@ {
                    (Ok(None), pos + 17)
                } else if !in_bounds(bytes, pos + 17, 1) {
                    (Err(truncated(Field::SecondMagic)), pos + 17)
                } else {
                    match spec_read_header(bytes, pos + 18) {
                        (Err(e), end) => (Err(e), end),
                        (Ok(header), after_header) => if header.flags.spec_is_gif() {
                            (Ok(None), after_header)
                        } else {
                            match spec_read_image_container(bytes, after_header, header.format) {
                                (Err(e), end) => (Err(e), end),
                                (Ok(image_container), end) => (
                                    Ok(
                                        Some(
                                            TexData {
                                                name,
                                                magic1,
                                                magic2,
                                                header,
                                                image_container,
                                                is_gif: false,
                                            },
                                        ),
                                    ),
                                    end,
                                ),
                            }
                        },
                    }
                },
            }
        },
    }
}

/// How the outcome of decoding a texture relates to what the bytes hold.
pub open spec fn texture_outcome(
    r: Result<Option<Tex>, TexFailure>,
    expected: Result<Option<TexData>, TexFailure>,
) -> bool {
    match expected {
        Ok(Some(data)) => r matches Ok(Some(tex)) && tex@ == data,
        Ok(None) => r matches Ok(None),
        Err(e) => r matches Err(got) && got == e,
    }
}

impl TexData {
    /// What holds of every decoded texture: its magics are the expected
    /// ones, it is not animated, and its container is well formed.
    pub open spec fn well_formed(self) -> bool {
        &&& self.magic1 == "TEXV0005"@
        &&& self.magic2 == "TEXI0001"@
        &&& !self.is_gif
        &&& !self.header.flags.spec_is_gif()
        &&& self.image_container.well_formed(self.header.format)
    }
}

/// A texture that decodes is well formed and has the name it was given.
pub proof fn lemma_texture_is_well_formed(bytes: Seq<u8>, pos: int, name: Seq<char>)
    ensures
        spec_read_texture(bytes, pos, name).0 matches Ok(Some(tex)) ==> tex.well_formed()
            && tex.name == name,
{
    if let (Ok(header), after_header) = spec_read_header(bytes, pos + 18) {
        lemma_container_is_well_formed(bytes, after_header, header.format);
    }
}

/// Decodes the texture record at the reader's position and gives it the name
/// `file_name`.
///
/// `Ok(None)` is the answer for a record that is not a texture of this kind
/// and is to be skipped; see `spec_read_texture` for when, and for where the
/// reader stands afterwards. A failure names the field at which it was
/// found, with the indices of the image and the mipmap where it lies inside
/// one, and leaves the reader at that field or right after the value that
/// was refused.
pub fn read_texture(reader: &mut ByteCursor, file_name: &str) -> (r: Result<
    Option<Tex>,
    TexFailure,
>)
    ensures
        final(reader).bytes() == old(reader).bytes(),
        texture_outcome(
            r,
            spec_read_texture(old(reader).bytes(), old(reader).position(), file_name@).0,
        ),
        final(reader).position() == spec_read_texture(
            old(reader).bytes(),
            old(reader).position(),
            file_name@,
        ).1,
        r matches Ok(Some(tex)) ==> tex@.well_formed() && tex@.name == file_name@,
{
    proof {
        lemma_texture_is_well_formed(reader.bytes(), reader.position(), file_name@);
    }
    let magic1 = read_magic(reader, Field::FirstMagic)?;
    if !text_is(&magic1, "TEXV0005") {
        return Ok(None);
    }
    skip_separator(reader, Field::FirstMagic)?;
    let magic2 = read_magic(reader, Field::SecondMagic)?;
    if !text_is(&magic2, "TEXI0001") {
        return Ok(None);
    }
    skip_separator(reader, Field::SecondMagic)?;
    let header = TexHeader::new(reader)?;
    if header.flags.is_gif() {
        return Ok(None);
    }
    let image_container = read_image_container(reader, header.format)?;
    Ok(
        Some(
            Tex {
                name: file_name.to_owned(),
                magic1,
                magic2,
                header,
                image_container,
                is_gif: false,
            },
        ),
    )
}

} // verus!
