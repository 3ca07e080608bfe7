//! What to write out for a decoded texture. Only a texture whose container
//! names a codec format is written: its first mipmap is a file of a kind
//! that the `image` crate can tell from its first bytes.

use crate::enums::FreeImageFormat;
use crate::texture::{mipmaps_data, images_data, MipmapData, Tex, TexData, TexMipmap};
use vstd::prelude::*;

verus! {

/// The file extension under which the `image` crate knows the format that
/// its `guess_format` guesses for `bytes`: the first entry of that format's
/// `extensions_str`. `None` where `guess_format` knows no format for them.
pub uninterp spec fn guessed_extension(bytes: Seq<u8>) -> Option<Seq<char>>;

/// Calls `image::guess_format` on `bytes`, and `ImageFormat::extensions_str`
/// on the format it finds, of which the first entry is handed back. The
/// guess looks at the leading bytes only and is the same for the same bytes.
#[verifier::external_body]
fn guess_extension(bytes: &[u8]) -> (extension: Option<String>)
    ensures
        match extension {
            Some(e) => guessed_extension(bytes@) == Some(e@),
            None => guessed_extension(bytes@) is None,
        },
{
    match image::guess_format(bytes) {
        Ok(format) => match format.extensions_str().first() {
            Some(extension) => Some((*extension).to_owned()),
            None => None,
        },
        Err(_) => None,
    }
}

/// What is to be done about writing a texture out.
#[derive(Debug, Clone, PartialEq, Eq)]
pub enum SavePlan {
    /// The container names no codec format: nothing is written.
    Nothing,
    /// The container names a codec format but holds no mipmap to write.
    NoImage,
    /// The first mipmap's bytes are of no format that is recognized.
    UnknownFormat,
    /// The first mipmap's bytes are to be written under this file name.
    File(String),
}

/// What a `SavePlan` holds.
pub enum SavePlanData {
    Nothing,
    NoImage,
    UnknownFormat,
    File(Seq<char>),
}

impl View for SavePlan {
    type V = SavePlanData;

    open spec fn view(&self) -> SavePlanData {
        match self {
            SavePlan::Nothing => SavePlanData::Nothing,
            SavePlan::NoImage => SavePlanData::NoImage,
            SavePlan::UnknownFormat => SavePlanData::UnknownFormat,
            SavePlan::File(name) => SavePlanData::File(name@),
        }
    }
}

/// The file name for a texture called `name` whose bytes have the extension
/// `extension`: the two joined by a dot.
pub open spec fn spec_image_file_name(name: Seq<char>, extension: Seq<char>) -> Seq<char> {
    name + "."@ + extension
}

/// The plan for a texture called `name` whose first mipmap has the guessed
/// extension `extension`.
pub open spec fn spec_name_plan(name: Seq<char>, extension: Option<Seq<char>>) -> SavePlanData {
    match extension {
        Some(e) => SavePlanData::File(spec_image_file_name(name, e)),
        None => SavePlanData::UnknownFormat,
    }
}

impl TexData {
    /// The first mipmap of the first image, if there is one.
    pub open spec fn spec_first_mipmap(self) -> Option<MipmapData> {
        if self.image_container.images.len() > 0 && self.image_container.images[0].len() > 0 {
            Some(self.image_container.images[0][0])
        } else {
            None
        }
    }

    /// What is to be done about writing this texture out.
    pub open spec fn spec_save_plan(self) -> SavePlanData {
        if self.image_container.image_format == FreeImageFormat::FIF_UNKNOWN {
            SavePlanData::Nothing
        } else {
            match self.spec_first_mipmap() {
                None => SavePlanData::NoImage,
                Some(m) => spec_name_plan(self.name, guessed_extension(m.bytes)),
            }
        }
    }
}

/// The file name for a texture called `name` whose bytes have the extension
/// `extension`.
pub fn image_file_name(name: &str, extension: &str) -> (file_name: String)
    ensures
        file_name@ == spec_image_file_name(name@, extension@),
{
    let mut file_name = name.to_owned();
    file_name.append(".");
    file_name.append(extension);
    file_name
}

/// Decides the plan once the extension has been guessed: a file under the
/// texture's name with that extension, or `UnknownFormat` without one.
pub fn name_plan(name: &str, extension: Option<String>) -> (plan: SavePlan)
    ensures
        plan@ == spec_name_plan(
            name@,
            match extension {
                Some(e) => Some(e@),
                None => None,
            },
        ),
{
    match extension {
        Some(e) => SavePlan::File(image_file_name(name, e.as_str())),
        None => SavePlan::UnknownFormat,
    }
}

impl Tex {
    /// The first mipmap of the first image, if there is one.
    pub fn first_mipmap(&self) -> (mipmap: Option<&TexMipmap>)
        ensures
            match mipmap {
                Some(m) => self@.spec_first_mipmap() == Some(m@),
                None => self@.spec_first_mipmap() is None,
            },
    {
        let images = self.image_container().images();
        if images.len() == 0 {
            return None;
        }
        assert(images_data(images@)[0] == images@[0]@);
        let mipmaps = images[0].mipmaps();
        if mipmaps.len() == 0 {
            return None;
        }
        assert(mipmaps_data(mipmaps@)[0] == mipmaps@[0]@);
        Some(&mipmaps[0])
    }

    /// Decides what is to be written for this texture, and under which file
    /// name.
    pub fn save_plan(&self) -> (plan: SavePlan)
        ensures
            plan@ == self@.spec_save_plan(),
    {
        match self.image_container().image_format() {
            FreeImageFormat::FIF_UNKNOWN => SavePlan::Nothing,
            _ => match self.first_mipmap() {
                None => SavePlan::NoImage,
                Some(mipmap) => name_plan(
                    self.name().as_str(),
                    guess_extension(mipmap.bytes().as_slice()),
                ),
            },
        }
    }
}

} // verus!
