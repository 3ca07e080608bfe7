//! The ways in which decoding can fail, and how a failure says where in a
//! texture record it was found.

use vstd::prelude::*;

verus! {

/// What went wrong.
///
/// A record that simply is not a texture of this family is no error: the
/// decoder reports it as `Ok(None)`.
#[derive(Debug, Clone, Copy, PartialEq, Eq, Structural)]
pub enum TexError {
    /// The header's pixel format code is none of the known ones.
    UnrecognizedFormat(u32),
    /// The header's flag word cannot be a set of flags.
    UnrecognizedFlags(i32),
    /// The container's image format code is none of the known ones.
    UnknownFormatCode(i32),
    /// The structural version of a container or mipmap is not 1, 2 or 3.
    UnsupportedVersion,
    /// A read ran past the end of the bytes.
    TruncatedStream,
    /// A payload could not be decompressed, or did not have the size its record promised.
    DecompressionFailure,
    /// A text field is not valid UTF-8.
    EncodingFailure,
    /// A file of a package has a path without an extension, so that its kind
    /// cannot be told.
    MissingExtension,
}

/// The fields of a texture record.
#[derive(Debug, Clone, Copy, PartialEq, Eq, Structural)]
pub enum Field {
    /// The first magic of a texture, with the separator byte after it.
    FirstMagic,
    /// The second magic of a texture, with the separator byte after it.
    SecondMagic,
    /// The header's pixel format code.
    PixelFormat,
    /// The header's flag word.
    Flags,
    /// The header's texture width.
    TexWidth,
    /// The header's texture height.
    TexHeight,
    /// The header's image width.
    ImgWidth,
    /// The header's image height.
    ImgHeight,
    /// The last field of the header, whose meaning is not known.
    Reserved,
    /// The magic of the image container, with the separator byte after it.
    ContainerMagic,
    /// The number of images in the container.
    ImageCount,
    /// The container's image format code.
    ImageFormat,
    /// The number of mipmaps in an image.
    MipmapCount,
    /// The width of a mipmap.
    Width,
    /// The height of a mipmap.
    Height,
    /// The flag word of a mipmap that says whether its payload is compressed.
    Compression,
    /// The size that a mipmap gives for its decompressed payload.
    DecompressedSize,
    /// The length that stands before the payload of a mipmap.
    PayloadLength,
    /// The payload of a mipmap.
    Payload,
}

/// A failure to decode a texture record: what went wrong, and where.
#[derive(Debug, Clone, Copy, PartialEq, Eq)]
pub struct TexFailure {
    pub error: TexError,
    /// The field that could not be read, or whose value was refused. `None`
    /// where the failure is about no field of the record.
    pub field: Option<Field>,
    /// For a failure inside an image: the index of the image in its
    /// container, once the container has been the one to read it.
    pub image: Option<u32>,
    /// For a failure inside a mipmap: the index of the mipmap in its image,
    /// once the image has been the one to read it.
    pub mipmap: Option<u32>,
}

impl TexFailure {
    /// The failure `error`, found at no field of the record.
    pub open spec fn spec_new(error: TexError) -> TexFailure {
        TexFailure { error, field: None, image: None, mipmap: None }
    }

    /// The failure `error`, found at `field`.
    pub open spec fn spec_at(error: TexError, field: Field) -> TexFailure {
        TexFailure { error, field: Some(field), image: None, mipmap: None }
    }

    /// This failure, found in mipmap `index` of an image.
    pub open spec fn spec_in_mipmap(self, index: u32) -> TexFailure {
        TexFailure { mipmap: Some(index), ..self }
    }

    /// This failure, found in image `index` of a container.
    pub open spec fn spec_in_image(self, index: u32) -> TexFailure {
        TexFailure { image: Some(index), ..self }
    }

    /// The failure `error`, found at no field of the record.
    pub fn new(error: TexError) -> (failure: TexFailure)
        ensures
            failure == Self::spec_new(error),
    {
        TexFailure { error, field: None, image: None, mipmap: None }
    }

    /// The failure `error`, found at `field`.
    pub fn at(error: TexError, field: Field) -> (failure: TexFailure)
        ensures
            failure == Self::spec_at(error, field),
    {
        TexFailure { error, field: Some(field), image: None, mipmap: None }
    }

    /// This failure, found in mipmap `index` of an image.
    pub fn in_mipmap(self, index: u32) -> (failure: TexFailure)
        ensures
            failure == self.spec_in_mipmap(index),
    {
        TexFailure { error: self.error, field: self.field, image: self.image, mipmap: Some(index) }
    }

    /// This failure, found in image `index` of a container.
    pub fn in_image(self, index: u32) -> (failure: TexFailure)
        ensures
            failure == self.spec_in_image(index),
    {
        TexFailure { error: self.error, field: self.field, image: Some(index), mipmap: self.mipmap }
    }
}

/// The failure of a read that found too few bytes for `field`.
pub open spec fn truncated(field: Field) -> TexFailure {
    TexFailure::spec_at(TexError::TruncatedStream, field)
}

} // verus!
