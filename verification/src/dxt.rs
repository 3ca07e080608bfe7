//! Decoding of block-compressed pixels. A DXT payload is a grid of 4x4 texel
//! blocks, rows of blocks from the top, each row from the left; this module
//! turns such a payload into plain RGBA bytes, four per pixel, rows from the
//! top.

use crate::enums::MipmapFormat;
use vstd::arithmetic::div_mod::lemma_fundamental_div_mod_converse;
use vstd::prelude::*;

verus! {

/// One decoded pixel.
#[derive(Debug, Clone, Copy, PartialEq, Eq, Structural)]
pub struct Rgba {
    pub r: u8,
    pub g: u8,
    pub b: u8,
    pub a: u8,
}

/// The number of blocks that cover `n` texels in one direction.
pub open spec fn blocks_across(n: u32) -> int {
    (n + 3) / 4
}

/// The size of one block: 8 bytes of color, and for DXT3 and DXT5 8 bytes
/// of alpha before them.
pub open spec fn block_bytes(format: MipmapFormat) -> int {
    if format == MipmapFormat::CompressedDXT1 {
        8
    } else {
        16
    }
}

/// The number of payload bytes that an image of `width` by `height` needs.
pub open spec fn payload_len(format: MipmapFormat, width: u32, height: u32) -> int {
    blocks_across(width) * blocks_across(height) * block_bytes(format)
}

/// A 5-bit channel widened to 8 bits by repeating its high bits.
pub open spec fn widen5(v: int) -> int {
    v * 8 + v / 4
}

/// A 6-bit channel widened to 8 bits by repeating its high bits.
pub open spec fn widen6(v: int) -> int {
    v * 4 + v / 16
}

/// The 16-bit color stored low byte first at `at`.
pub open spec fn color_at(data: Seq<u8>, at: int) -> int {
    data[at] as int + data[at + 1] as int * 256
}

/// The red channel of a 5:6:5 color.
pub open spec fn red_of(c: int) -> int {
    widen5(c / 2048)
}

/// The green channel of a 5:6:5 color.
pub open spec fn green_of(c: int) -> int {
    widen6((c / 32) % 64)
}

/// The blue channel of a 5:6:5 color.
pub open spec fn blue_of(c: int) -> int {
    widen5(c % 32)
}

/// 4 to the power `k`, for the four texels of a row.
pub open spec fn pow4(k: int) -> int {
    if k == 0 {
        1
    } else if k == 1 {
        4
    } else if k == 2 {
        16
    } else {
        64
    }
}

/// 8 to the power `k`, for the eight selectors of a 24-bit group.
pub open spec fn pow8(k: int) -> int {
    if k == 0 {
        1
    } else if k == 1 {
        8
    } else if k == 2 {
        64
    } else if k == 3 {
        512
    } else if k == 4 {
        4096
    } else if k == 5 {
        32768
    } else if k == 6 {
        262144
    } else {
        2097152
    }
}

/// The 2-bit color selector of texel `t` (row by row, 0 to 15) in the color
/// block at `at`: one byte per row, the leftmost texel in the lowest bits.
pub open spec fn color_selector(data: Seq<u8>, at: int, t: int) -> int {
    (data[at + 4 + t / 4] as int / pow4(t % 4)) % 4
}

/// One channel of the color that `selector` picks between the end points
/// `c0` and `c1`. With four colors the two middle ones lie at thirds; with
/// three the middle one lies halfway and the last is black.
pub open spec fn blend(c0: int, c1: int, selector: int, four: bool) -> int {
    if selector == 0 {
        c0
    } else if selector == 1 {
        c1
    } else if four {
        if selector == 2 {
            (2 * c0 + c1) / 3
        } else {
            (c0 + 2 * c1) / 3
        }
    } else {
        if selector == 2 {
            (c0 + c1) / 2
        } else {
            0
        }
    }
}

/// Texel `t` of the 8-byte color block at `at`. A block has four colors
/// where its first end point is the greater, or where `always_four` says so
/// (DXT3 and DXT5); else three, and its fourth selector is transparent.
pub open spec fn color_texel(data: Seq<u8>, at: int, t: int, always_four: bool) -> Rgba {
    let c0 = color_at(data, at);
    let c1 = color_at(data, at + 2);
    let four = always_four || c0 > c1;
    let s = color_selector(data, at, t);
    Rgba {
        r: blend(red_of(c0), red_of(c1), s, four) as u8,
        g: blend(green_of(c0), green_of(c1), s, four) as u8,
        b: blend(blue_of(c0), blue_of(c1), s, four) as u8,
        a: if !four && s == 3 {
            0
        } else {
            255
        },
    }
}

/// The alpha of texel `t` in the DXT3 alpha block at `at`: 4 bits per texel,
/// the even texel in the low half of each byte, widened to 8 bits.
pub open spec fn explicit_alpha(data: Seq<u8>, at: int, t: int) -> u8 {
    let byte = data[at + t / 2] as int;
    let nibble = if t % 2 == 0 {
        byte % 16
    } else {
        byte / 16
    };
    (nibble * 17) as u8
}

/// The 3-bit alpha selector of texel `t` in the DXT5 alpha block at `at`:
/// after the two end points come two groups of three bytes, each holding
/// eight selectors from its lowest bits up.
pub open spec fn alpha_selector(data: Seq<u8>, at: int, t: int) -> int {
    let base = at + 2 + 3 * (t / 8);
    let bits = data[base] as int + data[base + 1] as int * 256 + data[base + 2] as int * 65536;
    (bits / pow8(t % 8)) % 8
}

/// The alpha that `selector` picks between the end points `a0` and `a1`.
/// Where `a0` is the greater, six levels lie between them at sevenths; else
/// four at fifths, followed by 0 and 255.
pub open spec fn alpha_level(a0: int, a1: int, selector: int) -> int {
    if selector == 0 {
        a0
    } else if selector == 1 {
        a1
    } else if a0 > a1 {
        ((8 - selector) * a0 + (selector - 1) * a1) / 7
    } else if selector == 6 {
        0
    } else if selector == 7 {
        255
    } else {
        ((6 - selector) * a0 + (selector - 1) * a1) / 5
    }
}

/// The alpha of texel `t` in the DXT5 alpha block at `at`.
pub open spec fn interpolated_alpha(data: Seq<u8>, at: int, t: int) -> u8 {
    alpha_level(data[at] as int, data[at + 1] as int, alpha_selector(data, at, t)) as u8
}

/// Texel `t` of the block of `format` that starts at `at`.
pub open spec fn block_texel(format: MipmapFormat, data: Seq<u8>, at: int, t: int) -> Rgba {
    if format == MipmapFormat::CompressedDXT1 {
        color_texel(data, at, t, false)
    } else {
        let color = color_texel(data, at + 8, t, true);
        let alpha = if format == MipmapFormat::CompressedDXT3 {
            explicit_alpha(data, at, t)
        } else {
            interpolated_alpha(data, at, t)
        };
        Rgba { r: color.r, g: color.g, b: color.b, a: alpha }
    }
}

/// Where the block that holds the pixel (`x`, `y`) starts in the payload of
/// an image `width` texels wide.
pub open spec fn block_start(format: MipmapFormat, width: u32, x: int, y: int) -> int {
    ((y / 4) * blocks_across(width) + x / 4) * block_bytes(format)
}

/// The pixel (`x`, `y`) of the image that the payload `data` encodes.
pub open spec fn pixel(format: MipmapFormat, data: Seq<u8>, width: u32, x: int, y: int) -> Rgba {
    block_texel(format, data, block_start(format, width, x, y), (y % 4) * 4 + x % 4)
}

/// Channel `c` of a pixel, in the order red, green, blue, alpha.
pub open spec fn channel(p: Rgba, c: int) -> u8 {
    if c == 0 {
        p.r
    } else if c == 1 {
        p.g
    } else if c == 2 {
        p.b
    } else {
        p.a
    }
}

/// Byte `i` of the decoded image: channel `i % 4` of pixel `i / 4`, pixels
/// counted row by row.
pub open spec fn decoded_byte(format: MipmapFormat, data: Seq<u8>, width: u32, i: int) -> u8 {
    channel(pixel(format, data, width, (i / 4) % (width as int), (i / 4) / (width as int)), i % 4)
}

/// The RGBA bytes that the payload `data` of a DXT1, DXT3 or DXT5 image
/// decodes to: `width * height * 4` of them. There are none for another
/// format, nor where the payload is too short for the image, or the image
/// has more bytes than a vector can hold.
pub open spec fn spec_decode_blocks(
    format: MipmapFormat,
    data: Seq<u8>,
    width: u32,
    height: u32,
) -> Option<Seq<u8>> {
    if format.spec_is_block_compressed() && payload_len(format, width, height) <= data.len()
        && width * height * 4 <= isize::MAX {
        Some(Seq::new((width * height * 4) as nat, |i: int| decoded_byte(format, data, width, i)))
    } else {
        None
    }
}

fn color_of(data: &[u8], at: usize) -> (c: u32)
    requires
        at + 2 <= data.len(),
    ensures
        c == color_at(data@, at as int),
        c < 65536,
{
    data[at] as u32 + data[at + 1] as u32 * 256
}

fn widen5_exec(v: u32) -> (w: u32)
    requires
        v < 32,
    ensures
        w == widen5(v as int),
        w < 256,
{
    v * 8 + v / 4
}

fn widen6_exec(v: u32) -> (w: u32)
    requires
        v < 64,
    ensures
        w == widen6(v as int),
        w < 256,
{
    v * 4 + v / 16
}

fn blend_exec(c0: u32, c1: u32, selector: u32, four: bool) -> (c: u8)
    requires
        c0 < 256,
        c1 < 256,
        selector < 4,
    ensures
        c == blend(c0 as int, c1 as int, selector as int, four),
{
    let c: u32 = if selector == 0 {
        c0
    } else if selector == 1 {
        c1
    } else if four {
        if selector == 2 {
            (2 * c0 + c1) / 3
        } else {
            (c0 + 2 * c1) / 3
        }
    } else {
        if selector == 2 {
            (c0 + c1) / 2
        } else {
            0
        }
    };
    c as u8
}

fn color_texel_exec(data: &[u8], at: usize, t: usize, always_four: bool) -> (p: Rgba)
    requires
        at + 8 <= data.len(),
        t < 16,
    ensures
        p == color_texel(data@, at as int, t as int, always_four),
{
    let c0 = color_of(data, at);
    let c1 = color_of(data, at + 2);
    let four = always_four || c0 > c1;
    let row = data[at + 4 + t / 4] as u32;
    let col = t % 4;
    let div: u32 = if col == 0 {
        1
    } else if col == 1 {
        4
    } else if col == 2 {
        16
    } else {
        64
    };
    let s = (row / div) % 4;
    let r0 = widen5_exec(c0 / 2048);
    let g0 = widen6_exec((c0 / 32) % 64);
    let b0 = widen5_exec(c0 % 32);
    let r1 = widen5_exec(c1 / 2048);
    let g1 = widen6_exec((c1 / 32) % 64);
    let b1 = widen5_exec(c1 % 32);
    let a: u8 = if !four && s == 3 {
        0
    } else {
        255
    };
    Rgba {
        r: blend_exec(r0, r1, s, four),
        g: blend_exec(g0, g1, s, four),
        b: blend_exec(b0, b1, s, four),
        a,
    }
}

fn explicit_alpha_exec(data: &[u8], at: usize, t: usize) -> (a: u8)
    requires
        at + 8 <= data.len(),
        t < 16,
    ensures
        a == explicit_alpha(data@, at as int, t as int),
{
    let byte = data[at + t / 2] as u32;
    let nibble = if t % 2 == 0 {
        byte % 16
    } else {
        byte / 16
    };
    (nibble * 17) as u8
}

fn alpha_level_exec(a0: u32, a1: u32, selector: u32) -> (a: u8)
    requires
        a0 < 256,
        a1 < 256,
        selector < 8,
    ensures
        a == alpha_level(a0 as int, a1 as int, selector as int),
{
    let a: u32 = if selector == 0 {
        a0
    } else if selector == 1 {
        a1
    } else if a0 > a1 {
        let w0 = 8 - selector;
        let w1 = selector - 1;
        assert(w0 * a0 <= 6 * 255 && w1 * a1 <= 6 * 255 && w0 * a0 + w1 * a1 <= 7 * 255)
            by (nonlinear_arith)
            requires
                w0 + w1 == 7,
                1 <= w0 <= 6,
                a0 <= 255,
                a1 <= 255,
        ;
        (w0 * a0 + w1 * a1) / 7
    } else if selector == 6 {
        0
    } else if selector == 7 {
        255
    } else {
        let w0 = 6 - selector;
        let w1 = selector - 1;
        assert(w0 * a0 <= 4 * 255 && w1 * a1 <= 4 * 255 && w0 * a0 + w1 * a1 <= 5 * 255)
            by (nonlinear_arith)
            requires
                w0 + w1 == 5,
                1 <= w0 <= 4,
                a0 <= 255,
                a1 <= 255,
        ;
        (w0 * a0 + w1 * a1) / 5
    };
    a as u8
}

fn interpolated_alpha_exec(data: &[u8], at: usize, t: usize) -> (a: u8)
    requires
        at + 8 <= data.len(),
        t < 16,
    ensures
        a == interpolated_alpha(data@, at as int, t as int),
{
    let base = at + 2 + 3 * (t / 8);
    let bits = data[base] as u32 + data[base + 1] as u32 * 256 + data[base + 2] as u32 * 65536;
    let k = t % 8;
    let div: u32 = if k == 0 {
        1
    } else if k == 1 {
        8
    } else if k == 2 {
        64
    } else if k == 3 {
        512
    } else if k == 4 {
        4096
    } else if k == 5 {
        32768
    } else if k == 6 {
        262144
    } else {
        2097152
    };
    alpha_level_exec(data[at] as u32, data[at + 1] as u32, (bits / div) % 8)
}

fn block_texel_exec(format: MipmapFormat, data: &[u8], at: usize, t: usize) -> (p: Rgba)
    requires
        format.spec_is_block_compressed(),
        at + block_bytes(format) <= data.len(),
        t < 16,
    ensures
        p == block_texel(format, data@, at as int, t as int),
{
    match format {
        MipmapFormat::CompressedDXT1 => color_texel_exec(data, at, t, false),
        MipmapFormat::CompressedDXT3 => {
            let color = color_texel_exec(data, at + 8, t, true);
            Rgba { r: color.r, g: color.g, b: color.b, a: explicit_alpha_exec(data, at, t) }
        },
        _ => {
            let color = color_texel_exec(data, at + 8, t, true);
            Rgba { r: color.r, g: color.g, b: color.b, a: interpolated_alpha_exec(data, at, t) }
        },
    }
}

fn blocks_across_exec(n: u32) -> (blocks: usize)
    ensures
        blocks == blocks_across(n),
        blocks <= 0x4000_0000,
{
    if n % 4 == 0 {
        (n / 4) as usize
    } else {
        (n / 4) as usize + 1
    }
}

/// Where byte `c` of the pixel (`x`, `y`) stands in the decoded image, and
/// what it is.
proof fn lemma_decoded_byte(format: MipmapFormat, data: Seq<u8>, width: u32, x: int, y: int, c: int)
    requires
        0 <= x < width,
        0 <= y,
        0 <= c < 4,
    ensures
        decoded_byte(format, data, width, (y * width + x) * 4 + c) == channel(
            pixel(format, data, width, x, y),
            c,
        ),
{
    let p = y * width + x;
    lemma_fundamental_div_mod_converse(p, width as int, y, x);
}

/// The block of the pixel (`x`, `y`) lies wholly inside a payload that is
/// long enough for the image.
proof fn lemma_block_inside(format: MipmapFormat, width: u32, height: u32, x: int, y: int)
    requires
        0 <= x < width,
        0 <= y < height,
    ensures
        0 <= (y / 4) * blocks_across(width) + x / 4 < blocks_across(width) * blocks_across(height),
        0 <= block_start(format, width, x, y),
        block_start(format, width, x, y) + block_bytes(format) <= payload_len(
            format,
            width,
            height,
        ),
{
    let across = blocks_across(width);
    let down = blocks_across(height);
    let size = block_bytes(format);
    let row = y / 4;
    let col = x / 4;
    assert(0 <= row * across + col < across * down && (row * across + col) * size + size <= across
        * down * size) by (nonlinear_arith)
        requires
            0 <= row < down,
            0 <= col < across,
            size > 0,
    ;
}

/// Decodes a DXT1, DXT3 or DXT5 payload into RGBA bytes, four per pixel,
/// rows from the top. Bytes of `data` past the last block are ignored.
pub fn decode_blocks(format: MipmapFormat, data: &[u8], width: u32, height: u32) -> (r: Option<
    Vec<u8>,
>)
    ensures
        match spec_decode_blocks(format, data@, width, height) {
            Some(bytes) => r matches Some(v) && v@ == bytes,
            None => r is None,
        },
        r matches Some(v) ==> v@.len() == width * height * 4,
{
    if !format.is_block_compressed() {
        return None;
    }
    let across = blocks_across_exec(width);
    let down = blocks_across_exec(height);
    let size: usize = match format {
        MipmapFormat::CompressedDXT1 => 8,
        _ => 16,
    };
    assert(across * down <= 0x4000_0000 * 0x4000_0000 && width * height <= 0xffff_ffff
        * 0xffff_ffff) by (nonlinear_arith)
        requires
            across <= 0x4000_0000,
            down <= 0x4000_0000,
            width <= 0xffff_ffff,
            height <= 0xffff_ffff,
    ;
    let needed: u128 = across as u128 * down as u128 * size as u128;
    let total: u128 = width as u128 * height as u128 * 4;
    if needed > data.len() as u128 || total > isize::MAX as u128 {
        return None;
    }
    let mut out: Vec<u8> = Vec::new();
    let mut y: u32 = 0;
    while y < height
        invariant
            format.spec_is_block_compressed(),
            across == blocks_across(width),
            size == block_bytes(format),
            payload_len(format, width, height) <= data.len(),
            width * height * 4 <= isize::MAX,
            y <= height,
            out@.len() == y * width * 4,
            forall|i: int| 0 <= i < out@.len() ==> out@[i] == decoded_byte(format, data@, width, i),
        decreases height - y,
    {
        let mut x: u32 = 0;
        assert((y * width + 0) * 4 == y * width * 4);
        while x < width
            invariant
                format.spec_is_block_compressed(),
                across == blocks_across(width),
                size == block_bytes(format),
                payload_len(format, width, height) <= data.len(),
                width * height * 4 <= isize::MAX,
                y < height,
                x <= width,
                out@.len() == (y * width + x) * 4,
                forall|i: int|
                    0 <= i < out@.len() ==> out@[i] == decoded_byte(format, data@, width, i),
            decreases width - x,
        {
            proof {
                lemma_block_inside(format, width, height, x as int, y as int);
                lemma_decoded_byte(format, data@, width, x as int, y as int, 0);
                lemma_decoded_byte(format, data@, width, x as int, y as int, 1);
                lemma_decoded_byte(format, data@, width, x as int, y as int, 2);
                lemma_decoded_byte(format, data@, width, x as int, y as int, 3);
                assert((y * width + x) * 4 + 4 <= width * height * 4) by (nonlinear_arith)
                    requires
                        0 <= x < width,
                        0 <= y < height,
                ;
                assert((y * width + (x + 1)) * 4 == (y * width + x) * 4 + 4) by (nonlinear_arith);
            }
            let block = (y / 4) as usize * across + (x / 4) as usize;
            let at = block * size;
            let t = ((y % 4) * 4 + x % 4) as usize;
            let p = block_texel_exec(format, data, at, t);
            out.push(p.r);
            out.push(p.g);
            out.push(p.b);
            out.push(p.a);
            x = x + 1;
        }
        assert((y * width + width) * 4 == (y + 1) * width * 4) by (nonlinear_arith);
        y = y + 1;
    }
    assert(out@.len() == width * height * 4) by (nonlinear_arith)
        requires
            out@.len() == y * width * 4,
            y == height,
    ;
    assert(out@ =~= spec_decode_blocks(format, data@, width, height).unwrap());
    Some(out)
}

} // verus!
