//! Texture formats and filters, text alignment, and external resources.

use vstd::prelude::*;

verus! {

#[derive(Debug, Clone, Copy, Eq, PartialEq, Structural)]
pub enum TextureFormat {
    Rgba,
    Red,
    R8,
}

#[derive(Debug, Clone, Copy, Eq, PartialEq, Structural)]
pub enum TextureFilter {
    Linear,
    Nearest,
}

#[derive(Debug, Clone, Copy, PartialEq, Eq, Hash, Structural)]
pub enum HorizontalAlign {
    Left,
    Center,
    Right,
}

#[derive(Debug, Clone, Copy, PartialEq, Eq, Hash, Structural)]
pub enum VerticalAlign {
    Top,
    Center,
    Bottom,
}

/// Represents an external resource
pub trait Resource<T>: Clone + Sized {
    /// Create a new empty resource
    fn new(app: &mut T) -> Result<Self, String>;

    /// Parse byte data to create to fill the resource
    fn set_data(&mut self, app: &mut T, data: Vec<u8>) -> Result<(), String>;
}

} // verus!
