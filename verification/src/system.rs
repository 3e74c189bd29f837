//! Application settings, graphics API names, windows and log levels.

use vstd::prelude::*;

verus! {

/// Options used to build the application's window.
#[derive(Clone, Debug)]
pub struct BuilderOpts {
    pub title: String,
    pub width: i32,
    pub height: i32,
    pub fullscreen: bool,
    pub fps_target: Option<i32>,
    pub min_size: Option<(i32, i32)>,
    pub max_size: Option<(i32, i32)>,
    pub maximized: bool,
    pub resizable: bool,
}

impl Default for BuilderOpts {
    /// An 800x600 window titled "Nae App", windowed, not resizable, with no
    /// size limits and no frame rate target.
    fn default() -> (r: Self)
        ensures
            r.title@ == "Nae App"@,
            r.width == 800,
            r.height == 600,
            !r.fullscreen,
            r.fps_target.is_none(),
            r.min_size.is_none(),
            r.max_size.is_none(),
            !r.maximized,
            !r.resizable,
    {
        Self {
            title: String::from_str("Nae App"),
            width: 800,
            height: 600,
            fullscreen: false,
            fps_target: None,
            min_size: None,
            max_size: None,
            maximized: false,
            resizable: false,
        }
    }
}

/// One side of a window size after the limits: raised to `min` when below
/// it, then lowered to `max` when above it.
pub open spec fn clamp_side(v: i32, min: Option<i32>, max: Option<i32>) -> i32 {
    let raised = match min {
        Some(m) => if v < m { m } else { v },
        None => v,
    };
    match max {
        Some(m) => if raised > m { m } else { raised },
        None => raised,
    }
}

/// The first component of an optional pair.
pub open spec fn first_of(p: Option<(i32, i32)>) -> Option<i32> {
    match p {
        Some((w, _)) => Some(w),
        None => None,
    }
}

/// The second component of an optional pair.
pub open spec fn second_of(p: Option<(i32, i32)>) -> Option<i32> {
    match p {
        Some((_, h)) => Some(h),
        None => None,
    }
}

/// The size a resized canvas takes: the parent's `width` and `height`
/// raised to the minimum size and then lowered to the maximum size, side by
/// side, where those are set.
pub fn clamp_size(
    width: i32,
    height: i32,
    min_size: Option<(i32, i32)>,
    max_size: Option<(i32, i32)>,
) -> (r: (i32, i32))
    ensures
        r.0 == clamp_side(width, first_of(min_size), first_of(max_size)),
        r.1 == clamp_side(height, second_of(min_size), second_of(max_size)),
{
    let mut w = width;
    let mut h = height;
    if let Some((min_w, min_h)) = min_size {
        if w < min_w {
            w = min_w;
        }
        if h < min_h {
            h = min_h;
        }
    }
    if let Some((max_w, max_h)) = max_size {
        if w > max_w {
            w = max_w;
        }
        if h > max_h {
            h = max_h;
        }
    }
    (w, h)
}

/// A clamped size keeps a side that is within its limits, and otherwise
/// takes the nearest limit: with `lo <= hi`, the side ends in `[lo, hi]`, and
/// it is the given value whenever that value is already in `[lo, hi]`.
pub proof fn law_clamp_side_within(v: i32, lo: i32, hi: i32)
    requires
        lo <= hi,
    ensures
        lo <= clamp_side(v, Some(lo), Some(hi)) <= hi,
        lo <= v <= hi ==> clamp_side(v, Some(lo), Some(hi)) == v,
        v < lo ==> clamp_side(v, Some(lo), Some(hi)) == lo,
        v > hi ==> clamp_side(v, Some(lo), Some(hi)) == hi,
        clamp_side(v, None, None) == v,
{
}

/// Represents a graphics API
#[derive(Debug, Clone, Eq, PartialEq)]
pub enum GraphicsAPI {
    WebGl,
    WebGl2,
    WebGpu,
    OpenGl3_3,
    OpenGlEs2_0,
    Vulkan,
    Metal,
    Dx11,
    Dx12,
    Unknown(String),
}

/// A window of the platform
pub trait BaseWindow {
    fn width(&self) -> i32;

    fn height(&self) -> i32;

    fn fullscreen(&self) -> bool;

    fn title(&self) -> &str;
}

/// Levels of the logger, from the most verbose
pub enum LogLevel {
    Trace,
    Debug,
    Info,
    Warn,
    Error,
}

} // verus!
