//! The file name under which the picture of a post is kept.

use crate::patterns::{regex_replaced, replace_all};
use crate::wallpaper::data::GetFileNameError;
use vstd::prelude::*;
use vstd::string::StringExecFns;

verus! {

/// What the extension of a path says of the picture behind it.
#[derive(Debug)]
pub enum ImageKind {
    Png,
    Jpeg,
    /// Another format, with its name.
    Other { name: String },
    /// No format that is known.
    Unknown,
}

/// The mathematical value of an [`ImageKind`].
pub enum ImageKindView {
    Png,
    Jpeg,
    Other { name: Seq<char> },
    Unknown,
}

impl View for ImageKind {
    type V = ImageKindView;

    open spec fn view(&self) -> ImageKindView {
        match self {
            ImageKind::Png => ImageKindView::Png,
            ImageKind::Jpeg => ImageKindView::Jpeg,
            ImageKind::Other { name } => ImageKindView::Other { name: name@ },
            ImageKind::Unknown => ImageKindView::Unknown,
        }
    }
}

/// The characters of a title that a file name does not keep.
pub open spec fn unsafe_characters() -> Seq<char> {
    "[^a-zA-Z0-9_\\-.]"@
}

/// The title with every character that a file name does not keep replaced by
/// an underscore; `None` where the replacement could not be made.
pub open spec fn clean_title(title: Seq<char>) -> Option<Seq<char>> {
    regex_replaced(unsafe_characters(), title, "_"@)
}

/// The file name of a post, or the message that tells why there is none,
/// given what the extension of its address says, the address as it is quoted
/// in messages, and its cleaned title. A PNG is kept as `.png`, a JPEG as
/// `.jpg`; other formats are refused.
pub open spec fn file_name_of(kind: ImageKindView, quoted_url: Seq<char>, title: Option<Seq<char>>) -> Result<
    Seq<char>,
    Seq<char>,
> {
    match title {
        None => Err("Regex has invalid pattern"@),
        Some(clean) => match kind {
            ImageKindView::Png => Ok(clean + ".png"@),
            ImageKindView::Jpeg => Ok(clean + ".jpg"@),
            ImageKindView::Other { name } => Err("Not supported file extension: "@ + name),
            ImageKindView::Unknown => Err(
                "File extension not determined for url: "@ + quoted_url,
            ),
        },
    }
}

/// The views of a result that holds a file name.
pub open spec fn name_outcome(r: Result<String, GetFileNameError>) -> Result<Seq<char>, Seq<char>> {
    match r {
        Ok(name) => Ok(name@),
        Err(e) => Err(e.message@),
    }
}

/// `text` as `Debug` writes a `str`: between quotes, with escapes.
pub uninterp spec fn debug_quoted(text: Seq<char>) -> Seq<char>;

/// Whether `r` is the file name of the post at `url` with this title, for
/// some reading of the extension of its address.
pub open spec fn is_file_name_for(
    r: Result<Seq<char>, Seq<char>>,
    url: Seq<char>,
    title: Seq<char>,
) -> bool {
    exists|kind: ImageKindView|
        r == #[trigger] file_name_of(kind, debug_quoted(url), clean_title(title))
}

/// Asks `image::ImageFormat::from_path` what the extension of `path` says,
/// and names a format other than PNG and JPEG by its `Debug` text. The
/// reading of a path depends on the platform, so nothing is claimed of the
/// answer.
#[verifier::external_body]
pub(crate) fn image_kind(path: &str) -> (r: ImageKind) {
    match image::ImageFormat::from_path(path) {
        Ok(image::ImageFormat::Png) => ImageKind::Png,
        Ok(image::ImageFormat::Jpeg) => ImageKind::Jpeg,
        Ok(other) => ImageKind::Other { name: format!("{:?}", other) },
        Err(_) => ImageKind::Unknown,
    }
}

/// Writes `text` with `format!` as `Debug` does for `str`. The result is the
/// value named [`debug_quoted`].
#[verifier::external_body]
pub(crate) fn quoted(text: &str) -> (r: String)
    ensures
        r@ == debug_quoted(text@),
{
    format!("{:?}", text)
}

/// The file name of a post, from what was found out of its address and its
/// title.
pub fn file_name_from(kind: &ImageKind, quoted_url: &str, title: &Option<String>) -> (r: Result<
    String,
    GetFileNameError,
>)
    ensures
        name_outcome(r) == file_name_of(kind@, quoted_url@, title.deep_view()),
{
    match title {
        None => Err(GetFileNameError { message: String::from_str("Regex has invalid pattern") }),
        Some(clean) => match kind {
            ImageKind::Png => Ok(clean.clone().concat(".png")),
            ImageKind::Jpeg => Ok(clean.clone().concat(".jpg")),
            ImageKind::Other { name } => Err(
                GetFileNameError {
                    message: String::from_str("Not supported file extension: ").concat(
                        name.as_str(),
                    ),
                },
            ),
            ImageKind::Unknown => Err(
                GetFileNameError {
                    message: String::from_str("File extension not determined for url: ").concat(
                        quoted_url,
                    ),
                },
            ),
        },
    }
}

/// The file name under which the picture at `url` of the post called `title`
/// is kept.
pub fn get_file_name(url: &str, title: &str) -> (r: Result<String, GetFileNameError>)
    ensures
        is_file_name_for(name_outcome(r), url@, title@),
{
    let kind = image_kind(url);
    let clean = replace_all("[^a-zA-Z0-9_\\-.]", title, "_");
    let quoted_url = quoted(url);
    let r = file_name_from(&kind, quoted_url.as_str(), &clean);
    proof {
        assert(name_outcome(r) == file_name_of(kind@, debug_quoted(url@), clean_title(title@)));
    }
    r
}

} // verus!
