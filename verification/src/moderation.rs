//! Media types and moderation categories: the closed vocabularies of the
//! proxy.

use vstd::prelude::*;

use crate::strings::str_eq;

verus! {

/// The media types the proxy is willing to cache and hand to a moderation
/// provider.
#[derive(PartialEq, Eq, Structural, Clone, Copy, Debug)]
pub enum SupportedMimeTypes {
    ImageJpeg,
    ImagePng,
    ImageGif,
    ImageBmp,
    ImageTiff,
    Unsupported,
}

/// Which supported type a media-type string names.
pub open spec fn spec_mime_from(s: Seq<char>) -> SupportedMimeTypes {
    if s == "image/jpeg"@ || s == "image/jpg"@ {
        SupportedMimeTypes::ImageJpeg
    } else if s == "image/png"@ {
        SupportedMimeTypes::ImagePng
    } else if s == "image/tiff"@ {
        SupportedMimeTypes::ImageTiff
    } else if s == "image/gif"@ {
        SupportedMimeTypes::ImageGif
    } else if s == "image/bmp"@ || s == "image/x-ms-bmp"@ {
        SupportedMimeTypes::ImageBmp
    } else {
        SupportedMimeTypes::Unsupported
    }
}

impl SupportedMimeTypes {
    /// Classifies a media-type string; anything outside the closed list is
    /// `Unsupported`.
    pub fn from_string(s: &str) -> (r: SupportedMimeTypes)
        ensures
            r == spec_mime_from(s@),
    {
        if str_eq(s, "image/jpeg") || str_eq(s, "image/jpg") {
            SupportedMimeTypes::ImageJpeg
        } else if str_eq(s, "image/png") {
            SupportedMimeTypes::ImagePng
        } else if str_eq(s, "image/tiff") {
            SupportedMimeTypes::ImageTiff
        } else if str_eq(s, "image/gif") {
            SupportedMimeTypes::ImageGif
        } else if str_eq(s, "image/bmp") || str_eq(s, "image/x-ms-bmp") {
            SupportedMimeTypes::ImageBmp
        } else {
            SupportedMimeTypes::Unsupported
        }
    }
}

/// The closed set of moderation categories a verdict can carry.
#[derive(PartialEq, Eq, Structural, Clone, Copy, Debug)]
pub enum ModerationCategories {
    ExplicitNudity,
    Suggestive,
    Violence,
    VisuallyDisturbing,
    Rude,
    Drugs,
    Tobacco,
    Alcohol,
    Gambling,
    Hate,
    ExplicitContent,
    DrugsAndTobacco,
    Unknown,
}

/// The position of a category in the defined order; sorting and
/// de-duplication go by it.
pub open spec fn category_rank(c: ModerationCategories) -> int {
    match c {
        ModerationCategories::ExplicitNudity => 0,
        ModerationCategories::Suggestive => 1,
        ModerationCategories::Violence => 2,
        ModerationCategories::VisuallyDisturbing => 3,
        ModerationCategories::Rude => 4,
        ModerationCategories::Drugs => 5,
        ModerationCategories::Tobacco => 6,
        ModerationCategories::Alcohol => 7,
        ModerationCategories::Gambling => 8,
        ModerationCategories::Hate => 9,
        ModerationCategories::ExplicitContent => 10,
        ModerationCategories::DrugsAndTobacco => 11,
        ModerationCategories::Unknown => 12,
    }
}

impl ModerationCategories {
    /// The defined order, as an executable comparison.
    pub fn rank(&self) -> (r: u8)
        ensures
            r as int == category_rank(*self),
    {
        match *self {
            ModerationCategories::ExplicitNudity => 0,
            ModerationCategories::Suggestive => 1,
            ModerationCategories::Violence => 2,
            ModerationCategories::VisuallyDisturbing => 3,
            ModerationCategories::Rude => 4,
            ModerationCategories::Drugs => 5,
            ModerationCategories::Tobacco => 6,
            ModerationCategories::Alcohol => 7,
            ModerationCategories::Gambling => 8,
            ModerationCategories::Hate => 9,
            ModerationCategories::ExplicitContent => 10,
            ModerationCategories::DrugsAndTobacco => 11,
            ModerationCategories::Unknown => 12,
        }
    }
}

/// Two categories with the same rank are the same category.
pub proof fn lemma_category_rank_injective(a: ModerationCategories, b: ModerationCategories)
    requires
        category_rank(a) == category_rank(b),
    ensures
        a == b,
{
}

/// The tag of the provider that produced a verdict.
#[derive(PartialEq, Eq, Structural, Clone, Copy, Debug)]
pub enum ModerationService {
    Aws,
    Null,
    Unknown,
}

/// What a moderation call produced: the category tags and the provider
/// that assigned them.
pub struct ModerationResponse {
    pub categories: Vec<ModerationCategories>,
    pub provider: ModerationService,
}

/// A verdict blocks delivery exactly when its category set is non-empty.
pub fn is_blocked(categories: &Vec<ModerationCategories>) -> (r: bool)
    ensures
        r == (categories@.len() != 0),
{
    categories.len() != 0
}

} // verus!
