//! The closed sets of codes that a texture record uses, and the rules that
//! turn the raw integers of a record into them.

use crate::error::TexError;
use vstd::prelude::*;

verus! {

/// How the texture's own pixels are laid out, as the header declares it.
#[derive(Debug, Clone, Copy, PartialEq, Eq, Structural)]
pub enum TexFormat {
    RGBA8888,
    DXT5,
    DXT3,
    DXT1,
    R8,
    RG88,
}

impl TexFormat {
    /// The code that stands for this format in a header.
    pub open spec fn spec_code(self) -> u32 {
        match self {
            TexFormat::RGBA8888 => 0,
            TexFormat::DXT5 => 1,
            TexFormat::DXT3 => 2,
            TexFormat::DXT1 => 3,
            TexFormat::R8 => 4,
            TexFormat::RG88 => 5,
        }
    }

    /// The format that `code` stands for; any code above 5 is refused.
    pub open spec fn spec_try_from(code: u32) -> Result<TexFormat, TexError> {
        if code == 0 {
            Ok(TexFormat::RGBA8888)
        } else if code == 1 {
            Ok(TexFormat::DXT5)
        } else if code == 2 {
            Ok(TexFormat::DXT3)
        } else if code == 3 {
            Ok(TexFormat::DXT1)
        } else if code == 4 {
            Ok(TexFormat::R8)
        } else if code == 5 {
            Ok(TexFormat::RG88)
        } else {
            Err(TexError::UnrecognizedFormat(code))
        }
    }

    /// The code that stands for this format in a header.
    pub fn code(self) -> (code: u32)
        ensures
            code == self.spec_code(),
    {
        match self {
            TexFormat::RGBA8888 => 0,
            TexFormat::DXT5 => 1,
            TexFormat::DXT3 => 2,
            TexFormat::DXT1 => 3,
            TexFormat::R8 => 4,
            TexFormat::RG88 => 5,
        }
    }

    /// Decodes a header's pixel format code.
    pub fn try_from(code: u32) -> (r: Result<TexFormat, TexError>)
        ensures
            r == Self::spec_try_from(code),
    {
        match code {
            0 => Ok(TexFormat::RGBA8888),
            1 => Ok(TexFormat::DXT5),
            2 => Ok(TexFormat::DXT3),
            3 => Ok(TexFormat::DXT1),
            4 => Ok(TexFormat::R8),
            5 => Ok(TexFormat::RG88),
            _ => Err(TexError::UnrecognizedFormat(code)),
        }
    }
}

/// The flag word of a header: a set of bits, of which the lowest marks an
/// animated texture. Bits without a meaning here are kept as they were read.
#[derive(Debug, Clone, Copy, PartialEq, Eq, Structural)]
pub struct TexFlags {
    pub bits: u32,
}

impl TexFlags {
    /// Whether the bit for an animated texture is set.
    pub open spec fn spec_is_gif(self) -> bool {
        self.bits % 2 == 1
    }

    /// The flag set that `code` stands for. A negative word has its sign bit
    /// set, which no flag uses: it is refused.
    pub open spec fn spec_try_from(code: i32) -> Result<TexFlags, TexError> {
        if code < 0 {
            Err(TexError::UnrecognizedFlags(code))
        } else {
            Ok(TexFlags { bits: code as u32 })
        }
    }

    /// Decodes a header's flag word.
    pub fn try_from(code: i32) -> (r: Result<TexFlags, TexError>)
        ensures
            r == Self::spec_try_from(code),
    {
        if code < 0 {
            Err(TexError::UnrecognizedFlags(code))
        } else {
            Ok(TexFlags { bits: code as u32 })
        }
    }

    /// Whether the texture is marked as animated.
    pub fn is_gif(&self) -> (b: bool)
        ensures
            b == self.spec_is_gif(),
    {
        self.bits % 2 == 1
    }
}

/// The image format that a container declares for its payloads. Apart from
/// `FIF_UNKNOWN`, each names a file format whose codec owns the bytes.
#[allow(non_camel_case_types)]
#[derive(Debug, Clone, Copy, PartialEq, Eq, Structural)]
pub enum FreeImageFormat {
    /// No codec format: the texture's own pixel format applies.
    FIF_UNKNOWN,
    FIF_BMP,
    FIF_ICO,
    FIF_JPEG,
    FIF_JNG,
    FIF_KOALA,
    FIF_LBM,
    FIF_MNG,
    FIF_PBM,
    FIF_PBMRAW,
    FIF_PCD,
    FIF_PCX,
    FIF_PGM,
    FIF_PGMRAW,
    FIF_PNG,
    FIF_PPM,
    FIF_PPMRAW,
    FIF_RAS,
    FIF_TARGA,
    FIF_TIFF,
    FIF_WBMP,
    FIF_PSD,
    FIF_CUT,
    FIF_XBM,
    FIF_XPM,
    FIF_DDS,
    FIF_GIF,
    FIF_HDR,
    FIF_FAXG3,
    FIF_SGI,
    FIF_EXR,
    FIF_J2K,
    FIF_JP2,
    FIF_PFM,
    FIF_PICT,
    FIF_RAW,
}

impl FreeImageFormat {
    /// The code that stands for this format in a container: -1 for
    /// `FIF_UNKNOWN`, 0 to 34 for the codec formats.
    pub open spec fn spec_code(self) -> int {
        match self {
            FreeImageFormat::FIF_UNKNOWN => -1,
            FreeImageFormat::FIF_BMP => 0,
            FreeImageFormat::FIF_ICO => 1,
            FreeImageFormat::FIF_JPEG => 2,
            FreeImageFormat::FIF_JNG => 3,
            FreeImageFormat::FIF_KOALA => 4,
            FreeImageFormat::FIF_LBM => 5,
            FreeImageFormat::FIF_MNG => 6,
            FreeImageFormat::FIF_PBM => 7,
            FreeImageFormat::FIF_PBMRAW => 8,
            FreeImageFormat::FIF_PCD => 9,
            FreeImageFormat::FIF_PCX => 10,
            FreeImageFormat::FIF_PGM => 11,
            FreeImageFormat::FIF_PGMRAW => 12,
            FreeImageFormat::FIF_PNG => 13,
            FreeImageFormat::FIF_PPM => 14,
            FreeImageFormat::FIF_PPMRAW => 15,
            FreeImageFormat::FIF_RAS => 16,
            FreeImageFormat::FIF_TARGA => 17,
            FreeImageFormat::FIF_TIFF => 18,
            FreeImageFormat::FIF_WBMP => 19,
            FreeImageFormat::FIF_PSD => 20,
            FreeImageFormat::FIF_CUT => 21,
            FreeImageFormat::FIF_XBM => 22,
            FreeImageFormat::FIF_XPM => 23,
            FreeImageFormat::FIF_DDS => 24,
            FreeImageFormat::FIF_GIF => 25,
            FreeImageFormat::FIF_HDR => 26,
            FreeImageFormat::FIF_FAXG3 => 27,
            FreeImageFormat::FIF_SGI => 28,
            FreeImageFormat::FIF_EXR => 29,
            FreeImageFormat::FIF_J2K => 30,
            FreeImageFormat::FIF_JP2 => 31,
            FreeImageFormat::FIF_PFM => 32,
            FreeImageFormat::FIF_PICT => 33,
            FreeImageFormat::FIF_RAW => 34,
        }
    }

    /// The format that `code` stands for; a code below -1 or above 34 is
    /// refused.
    pub open spec fn spec_try_from(code: i32) -> Result<FreeImageFormat, TexError> {
        if code == -1 {
            Ok(FreeImageFormat::FIF_UNKNOWN)
        } else if code == 0 {
            Ok(FreeImageFormat::FIF_BMP)
        } else if code == 1 {
            Ok(FreeImageFormat::FIF_ICO)
        } else if code == 2 {
            Ok(FreeImageFormat::FIF_JPEG)
        } else if code == 3 {
            Ok(FreeImageFormat::FIF_JNG)
        } else if code == 4 {
            Ok(FreeImageFormat::FIF_KOALA)
        } else if code == 5 {
            Ok(FreeImageFormat::FIF_LBM)
        } else if code == 6 {
            Ok(FreeImageFormat::FIF_MNG)
        } else if code == 7 {
            Ok(FreeImageFormat::FIF_PBM)
        } else if code == 8 {
            Ok(FreeImageFormat::FIF_PBMRAW)
        } else if code == 9 {
            Ok(FreeImageFormat::FIF_PCD)
        } else if code == 10 {
            Ok(FreeImageFormat::FIF_PCX)
        } else if code == 11 {
            Ok(FreeImageFormat::FIF_PGM)
        } else if code == 12 {
            Ok(FreeImageFormat::FIF_PGMRAW)
        } else if code == 13 {
            Ok(FreeImageFormat::FIF_PNG)
        } else if code == 14 {
            Ok(FreeImageFormat::FIF_PPM)
        } else if code == 15 {
            Ok(FreeImageFormat::FIF_PPMRAW)
        } else if code == 16 {
            Ok(FreeImageFormat::FIF_RAS)
        } else if code == 17 {
            Ok(FreeImageFormat::FIF_TARGA)
        } else if code == 18 {
            Ok(FreeImageFormat::FIF_TIFF)
        } else if code == 19 {
            Ok(FreeImageFormat::FIF_WBMP)
        } else if code == 20 {
            Ok(FreeImageFormat::FIF_PSD)
        } else if code == 21 {
            Ok(FreeImageFormat::FIF_CUT)
        } else if code == 22 {
            Ok(FreeImageFormat::FIF_XBM)
        } else if code == 23 {
            Ok(FreeImageFormat::FIF_XPM)
        } else if code == 24 {
            Ok(FreeImageFormat::FIF_DDS)
        } else if code == 25 {
            Ok(FreeImageFormat::FIF_GIF)
        } else if code == 26 {
            Ok(FreeImageFormat::FIF_HDR)
        } else if code == 27 {
            Ok(FreeImageFormat::FIF_FAXG3)
        } else if code == 28 {
            Ok(FreeImageFormat::FIF_SGI)
        } else if code == 29 {
            Ok(FreeImageFormat::FIF_EXR)
        } else if code == 30 {
            Ok(FreeImageFormat::FIF_J2K)
        } else if code == 31 {
            Ok(FreeImageFormat::FIF_JP2)
        } else if code == 32 {
            Ok(FreeImageFormat::FIF_PFM)
        } else if code == 33 {
            Ok(FreeImageFormat::FIF_PICT)
        } else if code == 34 {
            Ok(FreeImageFormat::FIF_RAW)
        } else {
            Err(TexError::UnknownFormatCode(code))
        }
    }

    /// The code that stands for this format in a container.
    pub fn code(self) -> (code: i32)
        ensures
            code == self.spec_code(),
    {
        match self {
            FreeImageFormat::FIF_UNKNOWN => -1,
            FreeImageFormat::FIF_BMP => 0,
            FreeImageFormat::FIF_ICO => 1,
            FreeImageFormat::FIF_JPEG => 2,
            FreeImageFormat::FIF_JNG => 3,
            FreeImageFormat::FIF_KOALA => 4,
            FreeImageFormat::FIF_LBM => 5,
            FreeImageFormat::FIF_MNG => 6,
            FreeImageFormat::FIF_PBM => 7,
            FreeImageFormat::FIF_PBMRAW => 8,
            FreeImageFormat::FIF_PCD => 9,
            FreeImageFormat::FIF_PCX => 10,
            FreeImageFormat::FIF_PGM => 11,
            FreeImageFormat::FIF_PGMRAW => 12,
            FreeImageFormat::FIF_PNG => 13,
            FreeImageFormat::FIF_PPM => 14,
            FreeImageFormat::FIF_PPMRAW => 15,
            FreeImageFormat::FIF_RAS => 16,
            FreeImageFormat::FIF_TARGA => 17,
            FreeImageFormat::FIF_TIFF => 18,
            FreeImageFormat::FIF_WBMP => 19,
            FreeImageFormat::FIF_PSD => 20,
            FreeImageFormat::FIF_CUT => 21,
            FreeImageFormat::FIF_XBM => 22,
            FreeImageFormat::FIF_XPM => 23,
            FreeImageFormat::FIF_DDS => 24,
            FreeImageFormat::FIF_GIF => 25,
            FreeImageFormat::FIF_HDR => 26,
            FreeImageFormat::FIF_FAXG3 => 27,
            FreeImageFormat::FIF_SGI => 28,
            FreeImageFormat::FIF_EXR => 29,
            FreeImageFormat::FIF_J2K => 30,
            FreeImageFormat::FIF_JP2 => 31,
            FreeImageFormat::FIF_PFM => 32,
            FreeImageFormat::FIF_PICT => 33,
            FreeImageFormat::FIF_RAW => 34,
        }
    }

    /// Decodes a container's image format code.
    pub fn try_from(code: i32) -> (r: Result<FreeImageFormat, TexError>)
        ensures
            r == Self::spec_try_from(code),
    {
        match code {
            -1 => Ok(FreeImageFormat::FIF_UNKNOWN),
            0 => Ok(FreeImageFormat::FIF_BMP),
            1 => Ok(FreeImageFormat::FIF_ICO),
            2 => Ok(FreeImageFormat::FIF_JPEG),
            3 => Ok(FreeImageFormat::FIF_JNG),
            4 => Ok(FreeImageFormat::FIF_KOALA),
            5 => Ok(FreeImageFormat::FIF_LBM),
            6 => Ok(FreeImageFormat::FIF_MNG),
            7 => Ok(FreeImageFormat::FIF_PBM),
            8 => Ok(FreeImageFormat::FIF_PBMRAW),
            9 => Ok(FreeImageFormat::FIF_PCD),
            10 => Ok(FreeImageFormat::FIF_PCX),
            11 => Ok(FreeImageFormat::FIF_PGM),
            12 => Ok(FreeImageFormat::FIF_PGMRAW),
            13 => Ok(FreeImageFormat::FIF_PNG),
            14 => Ok(FreeImageFormat::FIF_PPM),
            15 => Ok(FreeImageFormat::FIF_PPMRAW),
            16 => Ok(FreeImageFormat::FIF_RAS),
            17 => Ok(FreeImageFormat::FIF_TARGA),
            18 => Ok(FreeImageFormat::FIF_TIFF),
            19 => Ok(FreeImageFormat::FIF_WBMP),
            20 => Ok(FreeImageFormat::FIF_PSD),
            21 => Ok(FreeImageFormat::FIF_CUT),
            22 => Ok(FreeImageFormat::FIF_XBM),
            23 => Ok(FreeImageFormat::FIF_XPM),
            24 => Ok(FreeImageFormat::FIF_DDS),
            25 => Ok(FreeImageFormat::FIF_GIF),
            26 => Ok(FreeImageFormat::FIF_HDR),
            27 => Ok(FreeImageFormat::FIF_FAXG3),
            28 => Ok(FreeImageFormat::FIF_SGI),
            29 => Ok(FreeImageFormat::FIF_EXR),
            30 => Ok(FreeImageFormat::FIF_J2K),
            31 => Ok(FreeImageFormat::FIF_JP2),
            32 => Ok(FreeImageFormat::FIF_PFM),
            33 => Ok(FreeImageFormat::FIF_PICT),
            34 => Ok(FreeImageFormat::FIF_RAW),
            _ => Err(TexError::UnknownFormatCode(code)),
        }
    }
}

/// What the bytes of a mipmap are. The first six say how pixels are laid
/// out; the `Image*` formats say that the bytes are a file of that kind, to
/// be handed to its codec untouched.
#[derive(Debug, Clone, Copy, PartialEq, Eq, Structural)]
pub enum MipmapFormat {
    /// Four 8-bit channels per pixel: red, green, blue, alpha.
    RGBA8888,
    /// One 8-bit channel per pixel.
    R8,
    /// Two 8-bit channels per pixel.
    RG88,
    /// 4x4 blocks of 16 bytes, interpolated alpha.
    CompressedDXT5,
    /// 4x4 blocks of 16 bytes, explicit alpha.
    CompressedDXT3,
    /// 4x4 blocks of 8 bytes.
    CompressedDXT1,
    ImageBMP,
    ImageICO,
    ImageJPEG,
    ImageJNG,
    ImageKOALA,
    ImageLBM,
    ImageMNG,
    ImagePBM,
    ImagePBMRAW,
    ImagePCD,
    ImagePCX,
    ImagePGM,
    ImagePGMRAW,
    ImagePNG,
    ImagePPM,
    ImagePPMRAW,
    ImageRAS,
    ImageTARGA,
    ImageTIFF,
    ImageWBMP,
    ImagePSD,
    ImageCUT,
    ImageXBM,
    ImageXPM,
    ImageDDS,
    ImageGIF,
    ImageHDR,
    ImageFAXG3,
    ImageSGI,
    ImageEXR,
    ImageJ2K,
    ImageJP2,
    ImagePFM,
    ImagePICT,
    ImageRAW,
}

impl MipmapFormat {
    /// The number of this format: below 1000 for pixel layouts, 1000 and up
    /// for the formats a codec owns.
    pub open spec fn spec_code(self) -> u32 {
        match self {
            MipmapFormat::RGBA8888 => 1,
            MipmapFormat::R8 => 2,
            MipmapFormat::RG88 => 3,
            MipmapFormat::CompressedDXT5 => 4,
            MipmapFormat::CompressedDXT3 => 5,
            MipmapFormat::CompressedDXT1 => 6,
            MipmapFormat::ImageBMP => 1000,
            MipmapFormat::ImageICO => 1001,
            MipmapFormat::ImageJPEG => 1002,
            MipmapFormat::ImageJNG => 1003,
            MipmapFormat::ImageKOALA => 1004,
            MipmapFormat::ImageLBM => 1005,
            MipmapFormat::ImageMNG => 1006,
            MipmapFormat::ImagePBM => 1007,
            MipmapFormat::ImagePBMRAW => 1008,
            MipmapFormat::ImagePCD => 1009,
            MipmapFormat::ImagePCX => 1010,
            MipmapFormat::ImagePGM => 1011,
            MipmapFormat::ImagePGMRAW => 1012,
            MipmapFormat::ImagePNG => 1013,
            MipmapFormat::ImagePPM => 1014,
            MipmapFormat::ImagePPMRAW => 1015,
            MipmapFormat::ImageRAS => 1016,
            MipmapFormat::ImageTARGA => 1017,
            MipmapFormat::ImageTIFF => 1018,
            MipmapFormat::ImageWBMP => 1019,
            MipmapFormat::ImagePSD => 1020,
            MipmapFormat::ImageCUT => 1021,
            MipmapFormat::ImageXBM => 1022,
            MipmapFormat::ImageXPM => 1023,
            MipmapFormat::ImageDDS => 1024,
            MipmapFormat::ImageGIF => 1025,
            MipmapFormat::ImageHDR => 1026,
            MipmapFormat::ImageFAXG3 => 1027,
            MipmapFormat::ImageSGI => 1028,
            MipmapFormat::ImageEXR => 1029,
            MipmapFormat::ImageJ2K => 1030,
            MipmapFormat::ImageJP2 => 1031,
            MipmapFormat::ImagePFM => 1032,
            MipmapFormat::ImagePICT => 1033,
            MipmapFormat::ImageRAW => 1034,
        }
    }

    /// Whether a codec owns the bytes, so that nothing here may reinterpret
    /// them.
    pub open spec fn spec_is_codec_owned(self) -> bool {
        self.spec_code() >= 1000
    }

    /// Whether the bytes are 4x4 texel blocks.
    pub open spec fn spec_is_block_compressed(self) -> bool {
        self == MipmapFormat::CompressedDXT5 || self == MipmapFormat::CompressedDXT3 || self
            == MipmapFormat::CompressedDXT1
    }

    /// The number of this format.
    pub fn code(self) -> (code: u32)
        ensures
            code == self.spec_code(),
    {
        match self {
            MipmapFormat::RGBA8888 => 1,
            MipmapFormat::R8 => 2,
            MipmapFormat::RG88 => 3,
            MipmapFormat::CompressedDXT5 => 4,
            MipmapFormat::CompressedDXT3 => 5,
            MipmapFormat::CompressedDXT1 => 6,
            MipmapFormat::ImageBMP => 1000,
            MipmapFormat::ImageICO => 1001,
            MipmapFormat::ImageJPEG => 1002,
            MipmapFormat::ImageJNG => 1003,
            MipmapFormat::ImageKOALA => 1004,
            MipmapFormat::ImageLBM => 1005,
            MipmapFormat::ImageMNG => 1006,
            MipmapFormat::ImagePBM => 1007,
            MipmapFormat::ImagePBMRAW => 1008,
            MipmapFormat::ImagePCD => 1009,
            MipmapFormat::ImagePCX => 1010,
            MipmapFormat::ImagePGM => 1011,
            MipmapFormat::ImagePGMRAW => 1012,
            MipmapFormat::ImagePNG => 1013,
            MipmapFormat::ImagePPM => 1014,
            MipmapFormat::ImagePPMRAW => 1015,
            MipmapFormat::ImageRAS => 1016,
            MipmapFormat::ImageTARGA => 1017,
            MipmapFormat::ImageTIFF => 1018,
            MipmapFormat::ImageWBMP => 1019,
            MipmapFormat::ImagePSD => 1020,
            MipmapFormat::ImageCUT => 1021,
            MipmapFormat::ImageXBM => 1022,
            MipmapFormat::ImageXPM => 1023,
            MipmapFormat::ImageDDS => 1024,
            MipmapFormat::ImageGIF => 1025,
            MipmapFormat::ImageHDR => 1026,
            MipmapFormat::ImageFAXG3 => 1027,
            MipmapFormat::ImageSGI => 1028,
            MipmapFormat::ImageEXR => 1029,
            MipmapFormat::ImageJ2K => 1030,
            MipmapFormat::ImageJP2 => 1031,
            MipmapFormat::ImagePFM => 1032,
            MipmapFormat::ImagePICT => 1033,
            MipmapFormat::ImageRAW => 1034,
        }
    }

    /// Whether a codec owns the bytes.
    pub fn is_codec_owned(self) -> (b: bool)
        ensures
            b == self.spec_is_codec_owned(),
    {
        self.code() >= 1000
    }

    /// Whether the bytes are 4x4 texel blocks.
    pub fn is_block_compressed(self) -> (b: bool)
        ensures
            b == self.spec_is_block_compressed(),
    {
        match self {
            MipmapFormat::CompressedDXT5 => true,
            MipmapFormat::CompressedDXT3 => true,
            MipmapFormat::CompressedDXT1 => true,
            _ => false,
        }
    }
}

/// The mipmap format that stands for the codec format `format`.
pub open spec fn spec_image2mipmap(format: FreeImageFormat) -> MipmapFormat
    recommends
        format != FreeImageFormat::FIF_UNKNOWN,
{
    match format {
        FreeImageFormat::FIF_UNKNOWN => arbitrary(),
        FreeImageFormat::FIF_BMP => MipmapFormat::ImageBMP,
        FreeImageFormat::FIF_ICO => MipmapFormat::ImageICO,
        FreeImageFormat::FIF_JPEG => MipmapFormat::ImageJPEG,
        FreeImageFormat::FIF_JNG => MipmapFormat::ImageJNG,
        FreeImageFormat::FIF_KOALA => MipmapFormat::ImageKOALA,
        FreeImageFormat::FIF_LBM => MipmapFormat::ImageLBM,
        FreeImageFormat::FIF_MNG => MipmapFormat::ImageMNG,
        FreeImageFormat::FIF_PBM => MipmapFormat::ImagePBM,
        FreeImageFormat::FIF_PBMRAW => MipmapFormat::ImagePBMRAW,
        FreeImageFormat::FIF_PCD => MipmapFormat::ImagePCD,
        FreeImageFormat::FIF_PCX => MipmapFormat::ImagePCX,
        FreeImageFormat::FIF_PGM => MipmapFormat::ImagePGM,
        FreeImageFormat::FIF_PGMRAW => MipmapFormat::ImagePGMRAW,
        FreeImageFormat::FIF_PNG => MipmapFormat::ImagePNG,
        FreeImageFormat::FIF_PPM => MipmapFormat::ImagePPM,
        FreeImageFormat::FIF_PPMRAW => MipmapFormat::ImagePPMRAW,
        FreeImageFormat::FIF_RAS => MipmapFormat::ImageRAS,
        FreeImageFormat::FIF_TARGA => MipmapFormat::ImageTARGA,
        FreeImageFormat::FIF_TIFF => MipmapFormat::ImageTIFF,
        FreeImageFormat::FIF_WBMP => MipmapFormat::ImageWBMP,
        FreeImageFormat::FIF_PSD => MipmapFormat::ImagePSD,
        FreeImageFormat::FIF_CUT => MipmapFormat::ImageCUT,
        FreeImageFormat::FIF_XBM => MipmapFormat::ImageXBM,
        FreeImageFormat::FIF_XPM => MipmapFormat::ImageXPM,
        FreeImageFormat::FIF_DDS => MipmapFormat::ImageDDS,
        FreeImageFormat::FIF_GIF => MipmapFormat::ImageGIF,
        FreeImageFormat::FIF_HDR => MipmapFormat::ImageHDR,
        FreeImageFormat::FIF_FAXG3 => MipmapFormat::ImageFAXG3,
        FreeImageFormat::FIF_SGI => MipmapFormat::ImageSGI,
        FreeImageFormat::FIF_EXR => MipmapFormat::ImageEXR,
        FreeImageFormat::FIF_J2K => MipmapFormat::ImageJ2K,
        FreeImageFormat::FIF_JP2 => MipmapFormat::ImageJP2,
        FreeImageFormat::FIF_PFM => MipmapFormat::ImagePFM,
        FreeImageFormat::FIF_PICT => MipmapFormat::ImagePICT,
        FreeImageFormat::FIF_RAW => MipmapFormat::ImageRAW,
    }
}

/// Maps a codec format to the mipmap format that stands for it: the one
/// numbered 1000 above the codec format's own code.
pub fn image2mipmap(format: &FreeImageFormat) -> (mipmap: MipmapFormat)
    requires
        *format != FreeImageFormat::FIF_UNKNOWN,
    ensures
        mipmap == spec_image2mipmap(*format),
        mipmap.spec_code() == 1000 + format.spec_code(),
        mipmap.spec_is_codec_owned(),
{
    match format {
        FreeImageFormat::FIF_UNKNOWN => unreached(),
        FreeImageFormat::FIF_BMP => MipmapFormat::ImageBMP,
        FreeImageFormat::FIF_ICO => MipmapFormat::ImageICO,
        FreeImageFormat::FIF_JPEG => MipmapFormat::ImageJPEG,
        FreeImageFormat::FIF_JNG => MipmapFormat::ImageJNG,
        FreeImageFormat::FIF_KOALA => MipmapFormat::ImageKOALA,
        FreeImageFormat::FIF_LBM => MipmapFormat::ImageLBM,
        FreeImageFormat::FIF_MNG => MipmapFormat::ImageMNG,
        FreeImageFormat::FIF_PBM => MipmapFormat::ImagePBM,
        FreeImageFormat::FIF_PBMRAW => MipmapFormat::ImagePBMRAW,
        FreeImageFormat::FIF_PCD => MipmapFormat::ImagePCD,
        FreeImageFormat::FIF_PCX => MipmapFormat::ImagePCX,
        FreeImageFormat::FIF_PGM => MipmapFormat::ImagePGM,
        FreeImageFormat::FIF_PGMRAW => MipmapFormat::ImagePGMRAW,
        FreeImageFormat::FIF_PNG => MipmapFormat::ImagePNG,
        FreeImageFormat::FIF_PPM => MipmapFormat::ImagePPM,
        FreeImageFormat::FIF_PPMRAW => MipmapFormat::ImagePPMRAW,
        FreeImageFormat::FIF_RAS => MipmapFormat::ImageRAS,
        FreeImageFormat::FIF_TARGA => MipmapFormat::ImageTARGA,
        FreeImageFormat::FIF_TIFF => MipmapFormat::ImageTIFF,
        FreeImageFormat::FIF_WBMP => MipmapFormat::ImageWBMP,
        FreeImageFormat::FIF_PSD => MipmapFormat::ImagePSD,
        FreeImageFormat::FIF_CUT => MipmapFormat::ImageCUT,
        FreeImageFormat::FIF_XBM => MipmapFormat::ImageXBM,
        FreeImageFormat::FIF_XPM => MipmapFormat::ImageXPM,
        FreeImageFormat::FIF_DDS => MipmapFormat::ImageDDS,
        FreeImageFormat::FIF_GIF => MipmapFormat::ImageGIF,
        FreeImageFormat::FIF_HDR => MipmapFormat::ImageHDR,
        FreeImageFormat::FIF_FAXG3 => MipmapFormat::ImageFAXG3,
        FreeImageFormat::FIF_SGI => MipmapFormat::ImageSGI,
        FreeImageFormat::FIF_EXR => MipmapFormat::ImageEXR,
        FreeImageFormat::FIF_J2K => MipmapFormat::ImageJ2K,
        FreeImageFormat::FIF_JP2 => MipmapFormat::ImageJP2,
        FreeImageFormat::FIF_PFM => MipmapFormat::ImagePFM,
        FreeImageFormat::FIF_PICT => MipmapFormat::ImagePICT,
        FreeImageFormat::FIF_RAW => MipmapFormat::ImageRAW,
    }
}

/// Decoding is the inverse of `code`: every pixel format decodes from its own
/// code, and a code that decodes gives a format with that code.
pub proof fn lemma_tex_format_codes(format: TexFormat, code: u32)
    ensures
        TexFormat::spec_try_from(format.spec_code()) == Ok::<TexFormat, TexError>(format),
        TexFormat::spec_try_from(code) matches Ok(f) ==> f.spec_code() == code,
        TexFormat::spec_try_from(code) is Err <==> code > 5,
{
}

/// Decoding is the inverse of `code`: every container format decodes from its
/// own code, and a code that decodes gives a format with that code.
pub proof fn lemma_image_format_codes(format: FreeImageFormat, code: i32)
    ensures
        FreeImageFormat::spec_try_from(format.spec_code() as i32) == Ok::<
            FreeImageFormat,
            TexError,
        >(format),
        FreeImageFormat::spec_try_from(code) matches Ok(f) ==> f.spec_code() == code,
        FreeImageFormat::spec_try_from(code) is Err <==> (code < -1 || code > 34),
{
}

} // verus!
