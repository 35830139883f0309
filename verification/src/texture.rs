//! The texture: a placeholder at once, the picture when it has arrived.

use vstd::prelude::*;
use crate::color::Rgba;
use crate::command::{Command, ImageFormat};
use crate::gl;

verus! {

/// What the texture holds.
#[derive(Clone, Copy, PartialEq, Eq, Structural, Debug)]
pub enum TextureContent {
    /// A single opaque blue texel, drawn until the picture arrives, and
    /// for good if it never does.
    Placeholder,
    /// The decoded picture and its smaller levels.
    Image,
}

/// The texel of the placeholder: opaque blue.
pub open spec fn spec_placeholder_pixel() -> Rgba {
    Rgba { r: 0, g: 0, b: 255, a: 255 }
}

/// The texel of the placeholder: opaque blue.
#[verifier::when_used_as_spec(spec_placeholder_pixel)]
pub fn placeholder_pixel() -> (pixel: Rgba)
    ensures
        pixel == spec_placeholder_pixel(),
{
    Rgba { r: 0, g: 0, b: 255, a: 255 }
}

/// The layout of every image that the texture is given: level zero of a
/// two-dimensional texture, four byte channels in and out.
pub open spec fn spec_image_format() -> ImageFormat {
    ImageFormat {
        target: gl::TEXTURE_2D,
        level: 0,
        internal_format: gl::RGBA,
        format: gl::RGBA,
        kind: gl::UNSIGNED_BYTE,
    }
}

/// The layout of every image that the texture is given.
#[verifier::when_used_as_spec(spec_image_format)]
pub fn image_format() -> (format: ImageFormat)
    ensures
        format == spec_image_format(),
{
    ImageFormat {
        target: gl::TEXTURE_2D,
        level: 0,
        internal_format: gl::RGBA,
        format: gl::RGBA,
        kind: gl::UNSIGNED_BYTE,
    }
}

/// Makes the texture and gives it the placeholder, one texel wide and one
/// high. When this is done the texture can be drawn with.
pub open spec fn placeholder_plan() -> Seq<Command> {
    seq![
        Command::CreateTexture,
        Command::BindTexture { target: gl::TEXTURE_2D },
        Command::TexImagePixel {
            format: spec_image_format(),
            width: 1,
            height: 1,
            border: 0,
            pixel: spec_placeholder_pixel(),
        },
    ]
}

/// Sets the picture at `source` on its way without waiting for it: create
/// the image element, register the completion callback, and only then
/// start the fetch.
pub open spec fn fetch_plan(source: &'static str) -> Seq<Command> {
    seq![
        Command::CreateImage,
        Command::SetCrossOrigin(""),
        Command::SetOnLoad,
        Command::SetSource(source),
    ]
}

/// What it takes to have a usable texture and the picture on its way.
pub open spec fn texture_plan(source: &'static str) -> Seq<Command> {
    placeholder_plan() + fetch_plan(source)
}

/// What the completion callback begins with: bind the same texture again
/// and fill it from the decoded picture.
pub open spec fn image_plan() -> Seq<Command> {
    seq![
        Command::BindTexture { target: gl::TEXTURE_2D },
        Command::TexImageElement { format: spec_image_format() },
    ]
}

/// What follows the attempt to fill the texture from the picture: the
/// smaller levels if it went well, nothing at all if it did not.
pub open spec fn mipmap_plan(uploaded: bool) -> Seq<Command> {
    if uploaded {
        seq![Command::GenerateMipmap { target: gl::TEXTURE_2D }]
    } else {
        Seq::empty()
    }
}

/// The commands of [`texture_plan`].
pub(crate) fn texture_commands(source: &'static str) -> (plan: Vec<Command>)
    ensures
        plan@ == texture_plan(source),
{
    vec![
        Command::CreateTexture,
        Command::BindTexture { target: gl::TEXTURE_2D },
        Command::TexImagePixel {
            format: image_format(),
            width: 1,
            height: 1,
            border: 0,
            pixel: placeholder_pixel(),
        },
        Command::CreateImage,
        Command::SetCrossOrigin(""),
        Command::SetOnLoad,
        Command::SetSource(source),
    ]
}

/// The commands of [`image_plan`].
pub(crate) fn image_commands() -> (plan: Vec<Command>)
    ensures
        plan@ == image_plan(),
{
    vec![
        Command::BindTexture { target: gl::TEXTURE_2D },
        Command::TexImageElement { format: image_format() },
    ]
}

/// The commands of [`mipmap_plan`].
pub(crate) fn mipmap_commands(uploaded: bool) -> (plan: Vec<Command>)
    ensures
        plan@ == mipmap_plan(uploaded),
{
    if uploaded {
        vec![Command::GenerateMipmap { target: gl::TEXTURE_2D }]
    } else {
        Vec::new()
    }
}

} // verus!
