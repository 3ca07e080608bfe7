//! Decoder for TEX texture containers, and for the index of the packages
//! that hold them.
//!
//! A texture record is a fixed header, a versioned image container and the
//! container's mipmap records. `texture::read_texture` decodes one from a
//! `cursor::ByteCursor` and hands out every mipmap normalized: decompressed,
//! and in plain RGBA pixels where the record held DXT blocks. What the bytes
//! decode to is defined in `texture`, and `laws` states what follows from
//! the definitions for every input.

pub mod cursor;
pub mod dxt;
pub mod enums;
pub mod error;
pub mod export;
pub mod laws;
pub mod lz4;
pub mod pkg;
pub mod texture;
