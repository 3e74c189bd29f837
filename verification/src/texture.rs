//! Texture options and sizing rules of the OpenGL backend.

use vstd::prelude::*;
use crate::resources::{TextureFilter, TextureFormat};

verus! {

/// Represent the options to create a new texture
#[derive(Debug, Clone, Copy, Eq, PartialEq, Structural)]
pub struct TextureOptions {
    pub format: TextureFormat,
    pub internal_format: TextureFormat,
    pub min_filter: TextureFilter,
    pub mag_filter: TextureFilter,
}

impl Default for TextureOptions {
    /// RGBA data in an RGBA texture, sampled with nearest filtering.
    fn default() -> (r: Self)
        ensures
            r == (TextureOptions {
                format: TextureFormat::Rgba,
                internal_format: TextureFormat::Rgba,
                min_filter: TextureFilter::Nearest,
                mag_filter: TextureFilter::Nearest,
            }),
    {
        Self {
            format: TextureFormat::Rgba,
            internal_format: TextureFormat::Rgba,
            mag_filter: TextureFilter::Nearest,
            min_filter: TextureFilter::Nearest,
        }
    }
}

/// Bytes per pixel: one for `Red` data in an `R8` texture, four otherwise.
pub open spec fn pixel_bytes(format: TextureFormat, internal_format: TextureFormat) -> usize {
    if format == TextureFormat::Red && internal_format == TextureFormat::R8 {
        1
    } else {
        4
    }
}

/// Bytes per pixel of a texture with `format` data in `internal_format`.
pub fn bytes_per_pixel(format: &TextureFormat, internal_format: &TextureFormat) -> (r: usize)
    ensures
        r == pixel_bytes(*format, *internal_format),
{
    match (format, internal_format) {
        (TextureFormat::Red, TextureFormat::R8) => 1,
        _ => 4,
    }
}

/// The size to grow the glyph texture to: the largest allowed square when the
/// suggestion exceeds the limit on some side while the current texture is
/// still under the limit on some side, the suggestion otherwise.
pub open spec fn suggested_size(max: u32, suggested: (u32, u32), dimensions: (u32, u32)) -> (u32, u32) {
    if (suggested.0 > max || suggested.1 > max) && (dimensions.0 < max || dimensions.1 < max) {
        (max, max)
    } else {
        suggested
    }
}

/// Clamps the glyph cache's suggested texture size to the GL limit.
pub fn max_suggest_size(
    max_texture_dimensions: u32,
    suggested: (u32, u32),
    dimensions: (u32, u32),
) -> (r: (u32, u32))
    ensures
        r == suggested_size(max_texture_dimensions, suggested, dimensions),
{
    let suggested_bigger = suggested.0 > max_texture_dimensions || suggested.1
        > max_texture_dimensions;
    let dimensions_smaller = dimensions.0 < max_texture_dimensions || dimensions.1
        < max_texture_dimensions;
    if suggested_bigger && dimensions_smaller {
        (max_texture_dimensions, max_texture_dimensions)
    } else {
        suggested
    }
}


/// A texture larger than the GPU allows.
#[derive(Debug, Clone, Copy, Eq, PartialEq, Structural)]
pub struct TextureTooBig {
    pub width: i32,
    pub height: i32,
    pub max_size: i32,
}

/// Whether a texture of `width` by `height` exceeds the GPU's limit on
/// some side.
pub open spec fn exceeds_limit(width: i32, height: i32, max_size: i32) -> bool {
    width > max_size || height > max_size
}

/// The length of the zeroed pixel buffer a new `width` by `height` texture
/// starts with, or the error when a side exceeds the GPU's `max_size`.  The
/// pixel count is computed in `i32` and must not be negative.
pub fn texture_data_len(width: i32, height: i32, max_size: i32, bpp: usize) -> (r: Result<
    usize,
    TextureTooBig,
>)
    requires
        exceeds_limit(width, height, max_size) || (0 <= width * height <= i32::MAX && width
            * height * bpp <= usize::MAX),
    ensures
        exceeds_limit(width, height, max_size) ==> r == Err::<usize, TextureTooBig>(
            TextureTooBig { width, height, max_size },
        ),
        !exceeds_limit(width, height, max_size) ==> r == Ok::<usize, TextureTooBig>(
            (width * height * bpp) as usize,
        ),
{
    if width > max_size || height > max_size {
        return Err(TextureTooBig { width, height, max_size });
    }
    let pixels = (width * height) as usize;
    Ok(pixels * bpp)
}

} // verus!
