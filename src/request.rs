//! What a display request asks for: the format an upload is declared in, and
//! the fit policy, each given by name.

use crate::geometry::{AspectMode, ContentMode};
use vstd::prelude::*;

verus! {

/// The image formats a request can name.
#[derive(Debug, Clone, Copy, PartialEq, Eq, Structural)]
pub enum ImageKind {
    Png,
    Jpeg,
    Bmp,
}

/// `name` is the text `lit`, character for character.
pub open spec fn names(name: Seq<char>, lit: &str) -> bool {
    name == lit@
}

/// The format a query parameter or a content type names: a MIME type or a
/// bare extension.
pub open spec fn kind_named(name: Seq<char>) -> Option<ImageKind> {
    if names(name, "image/png") || names(name, "png") {
        Some(ImageKind::Png)
    } else if names(name, "image/jpeg") || names(name, "jpeg") || names(name, "jpg") {
        Some(ImageKind::Jpeg)
    } else if names(name, "image/bmp") || names(name, "bmp") {
        Some(ImageKind::Bmp)
    } else {
        None
    }
}

/// The fit policy a request names: aspect fit when none is given, and the
/// native size for a name it does not know.
pub open spec fn mode_named(name: Option<Seq<char>>) -> ContentMode {
    match name {
        None => ContentMode::Aspect(AspectMode::Fit),
        Some(n) => if names(n, "AspectFit") || names(n, "aspect_fit") {
            ContentMode::Aspect(AspectMode::Fit)
        } else if names(n, "AspectFill") || names(n, "aspect_fill") {
            ContentMode::Aspect(AspectMode::Fill)
        } else if names(n, "Fill") || names(n, "fill") {
            ContentMode::ScaleToFill
        } else {
            ContentMode::Native
        },
    }
}

pub open spec fn chars_of(name: Option<&str>) -> Option<Seq<char>> {
    match name {
        Some(s) => Some(s@),
        None => None,
    }
}

fn is(name: &str, lit: &str) -> (r: bool)
    ensures
        r == names(name@, lit),
{
    name.to_owned() == lit.to_owned()
}

/// The format named by `name`, if it is one of the known names.
pub fn image_kind(name: &str) -> (r: Option<ImageKind>)
    ensures
        r == kind_named(name@),
{
    if is(name, "image/png") || is(name, "png") {
        Some(ImageKind::Png)
    } else if is(name, "image/jpeg") || is(name, "jpeg") || is(name, "jpg") {
        Some(ImageKind::Jpeg)
    } else if is(name, "image/bmp") || is(name, "bmp") {
        Some(ImageKind::Bmp)
    } else {
        None
    }
}

/// The fit policy named by `name`.
pub fn content_mode(name: Option<&str>) -> (r: ContentMode)
    ensures
        r == mode_named(chars_of(name)),
{
    match name {
        None => ContentMode::Aspect(AspectMode::Fit),
        Some(n) => {
            if is(n, "AspectFit") || is(n, "aspect_fit") {
                ContentMode::Aspect(AspectMode::Fit)
            } else if is(n, "AspectFill") || is(n, "aspect_fill") {
                ContentMode::Aspect(AspectMode::Fill)
            } else if is(n, "Fill") || is(n, "fill") {
                ContentMode::ScaleToFill
            } else {
                ContentMode::Native
            }
        },
    }
}

} // verus!
