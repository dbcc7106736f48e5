//! The image elements of a toast.

use vstd::prelude::*;

use crate::WinToastError;

verus! {

/// Where an image is placed in the rendered toast.
#[derive(Debug, Clone, Copy, PartialEq, Eq)]
pub enum ImagePlacement {
    /// The image is displayed as a banner across the top of the toast.
    Hero,
    /// The image replaces the application's logo in the toast.
    AppLogoOverride,
}

/// The serialized token for an image placement.
pub open spec fn spec_image_placement_str(p: ImagePlacement) -> Seq<char> {
    match p {
        ImagePlacement::Hero => "hero"@,
        ImagePlacement::AppLogoOverride => "appLogoOverride"@,
    }
}

impl ImagePlacement {
    /// The schema token this placement serializes to.
    pub fn as_str(&self) -> (r: &'static str)
        ensures
            r@ == spec_image_placement_str(*self),
    {
        match self {
            ImagePlacement::Hero => "hero",
            ImagePlacement::AppLogoOverride => "appLogoOverride",
        }
    }
}

/// How an image is cropped in the rendered toast.
#[derive(Debug, Clone, Copy, PartialEq, Eq)]
pub enum ImageHintCrop {
    /// The image is cropped into a circle.
    Circle,
}

/// The serialized token for a crop hint.
pub open spec fn spec_hint_crop_str(c: ImageHintCrop) -> Seq<char> {
    match c {
        ImageHintCrop::Circle => "circle"@,
    }
}

impl ImageHintCrop {
    /// The schema token this crop hint serializes to.
    pub fn as_str(&self) -> (r: &'static str)
        ensures
            r@ == spec_hint_crop_str(*self),
    {
        match self {
            ImageHintCrop::Circle => "circle",
        }
    }
}

/// An image element in a toast.
///
/// Its slot id is supplied by the containing toast at serialization time,
/// not stored here.
#[derive(Debug, Clone)]
pub struct Image {
    /// The source of the image: a remote URL or a `file://` URL for local media.
    pub src: String,
    /// Where the image is placed; absent means the generic inline position.
    pub placement: Option<ImagePlacement>,
    /// How the image is cropped; absent means no cropping.
    pub hint_crop: Option<ImageHintCrop>,
}

/// Relies on `url::Url::from_file_path` (and `String::from` on the resulting
/// `Url`): an absolute file path is converted to a URL in the `file` scheme,
/// whose serialization starts with `file://`; a path that is not absolute is
/// refused with `Err`.
#[verifier::external_body]
fn file_uri_for_path(path: &str) -> (r: Option<String>)
    ensures
        r matches Some(u) ==> u@.len() >= "file://"@.len() && u@.subrange(
            0,
            "file://"@.len() as int,
        ) == "file://"@,
{
    url::Url::from_file_path(path).ok().map(String::from)
}

impl Image {
    /// Create a new image element from an already-formed source URL.
    pub fn new(src: String) -> (r: Image)
        ensures
            r.src == src,
            r.placement is None,
            r.hint_crop is None,
    {
        Image { src, placement: None, hint_crop: None }
    }

    /// Create a new image element from a path to a local media file.
    ///
    /// The path must be absolute, so that it can be converted to a `file://`
    /// URL; otherwise [`WinToastError::InvalidPath`] is returned.
    pub fn new_local(path: &str) -> (r: Result<Image, WinToastError>)
        ensures
            match r {
                Ok(img) => {
                    &&& img.placement is None
                    &&& img.hint_crop is None
                    &&& img.src@.len() >= "file://"@.len()
                    &&& img.src@.subrange(0, "file://"@.len() as int) == "file://"@
                },
                Err(e) => e == WinToastError::InvalidPath,
            },
    {
        match file_uri_for_path(path) {
            Some(uri) => Ok(Image::new(uri)),
            None => Err(WinToastError::InvalidPath),
        }
    }

    /// Set the placement of the image.
    pub fn with_placement(self, placement: ImagePlacement) -> (r: Image)
        ensures
            r.src == self.src,
            r.placement == Some(placement),
            r.hint_crop == self.hint_crop,
    {
        Image { placement: Some(placement), ..self }
    }

    /// Set the crop hint of the image.
    pub fn with_hint_crop(self, hint_crop: ImageHintCrop) -> (r: Image)
        ensures
            r.src == self.src,
            r.placement == self.placement,
            r.hint_crop == Some(hint_crop),
    {
        Image { hint_crop: Some(hint_crop), ..self }
    }
}

} // verus!
