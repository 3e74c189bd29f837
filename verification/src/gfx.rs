//! The decisions of the OpenGL backend: which GL enumerant stands for each
//! render setting, which GL state a pipeline sets when it is bound, how vertex
//! attributes are laid out, how textures are sized, when drawing is allowed and
//! how SPIR-V bytes become words.  Issuing the GL calls themselves is left to
//! the caller.

use vstd::prelude::*;
use crate::gl;
use crate::pipeline::{BlendFactor, BlendMode, BlendOperation, CullMode, DrawUsage};
use crate::resources::{TextureFilter, TextureFormat};
use crate::system::GraphicsAPI;

verus! {

/// A value that has an OpenGL counterpart.
pub trait GlowValue {
    type VALUE;

    /// The OpenGL counterpart of this value.
    fn glow_value(&self) -> Self::VALUE;
}

/// Comparison used by depth and stencil tests.
#[derive(Debug, Copy, Clone, Eq, PartialEq, Structural)]
pub enum CompareMode {
    /// No comparison: the test is disabled
    Disabled,
    Less,
    Equal,
    LEqual,
    Greater,
    NotEqual,
    GEqual,
    Always,
}

/// What the stencil test does to the stencil buffer.
#[derive(Debug, Copy, Clone, Eq, PartialEq, Structural)]
pub enum StencilAction {
    Keep,
    Zero,
    Replace,
    Increment,
    IncrementWrap,
    Decrement,
    DecrementWrap,
    Invert,
}

/// Stencil test settings.
#[derive(Debug, Copy, Clone, Eq, PartialEq, Structural)]
pub struct StencilOptions {
    pub stencil_fail: StencilAction,
    pub depth_fail: StencilAction,
    pub pass: StencilAction,
    pub compare: CompareMode,
    pub read_mask: u32,
    pub write_mask: u32,
    pub reference: u8,
}

/// Depth test settings.
#[derive(Debug, Copy, Clone, Eq, PartialEq, Structural)]
pub struct DepthStencil {
    pub write: bool,
    pub compare: CompareMode,
}

/// Which color channels are written.
#[derive(Debug, Copy, Clone, Eq, PartialEq, Structural)]
pub struct ColorMask {
    pub r: bool,
    pub g: bool,
    pub b: bool,
    pub a: bool,
}

/// The render state that the OpenGL backend binds with a pipeline.
#[derive(Debug, Clone, Eq, PartialEq, Structural)]
pub struct PipelineOptions {
    pub color_blend: Option<BlendMode>,
    pub alpha_blend: Option<BlendMode>,
    pub cull_mode: CullMode,
    pub depth_stencil: DepthStencil,
    pub color_mask: ColorMask,
    pub stencil: Option<StencilOptions>,
}

/// The GL face culled by a culling mode; `None` when culling is disabled.
pub open spec fn cull_mode_gl(mode: CullMode) -> Option<u32> {
    match mode {
        CullMode::Disabled => None,
        CullMode::Front => Some(gl::FRONT),
        CullMode::Back => Some(gl::BACK),
    }
}

/// The GL comparison function of a compare mode; `None` when disabled.
pub open spec fn compare_mode_gl(mode: CompareMode) -> Option<u32> {
    match mode {
        CompareMode::Disabled => None,
        CompareMode::Less => Some(gl::LESS),
        CompareMode::Equal => Some(gl::EQUAL),
        CompareMode::LEqual => Some(gl::LEQUAL),
        CompareMode::Greater => Some(gl::GREATER),
        CompareMode::NotEqual => Some(gl::NOTEQUAL),
        CompareMode::GEqual => Some(gl::GEQUAL),
        CompareMode::Always => Some(gl::ALWAYS),
    }
}

/// The GL blend factor of a blend factor: each factor maps to its GL
/// namesake, except `DestinationColor`, which this backend binds as
/// `GL_SRC_COLOR`.
pub open spec fn blend_factor_gl(factor: BlendFactor) -> u32 {
    match factor {
        BlendFactor::Zero => gl::ZERO,
        BlendFactor::One => gl::ONE,
        BlendFactor::SourceAlpha => gl::SRC_ALPHA,
        BlendFactor::SourceColor => gl::SRC_COLOR,
        BlendFactor::InverseSourceAlpha => gl::ONE_MINUS_SRC_ALPHA,
        BlendFactor::InverseSourceColor => gl::ONE_MINUS_SRC_COLOR,
        BlendFactor::DestinationAlpha => gl::DST_ALPHA,
        BlendFactor::DestinationColor => gl::SRC_COLOR,
        BlendFactor::InverseDestinationAlpha => gl::ONE_MINUS_DST_ALPHA,
        BlendFactor::InverseDestinationColor => gl::ONE_MINUS_DST_COLOR,
    }
}

/// The GL blend equation of a blend operation.
pub open spec fn blend_operation_gl(op: BlendOperation) -> u32 {
    match op {
        BlendOperation::Add => gl::FUNC_ADD,
        BlendOperation::Subtract => gl::FUNC_SUBTRACT,
        BlendOperation::ReverseSubtract => gl::FUNC_REVERSE_SUBTRACT,
        BlendOperation::Max => gl::MAX,
        BlendOperation::Min => gl::MIN,
    }
}

/// The GL stencil operation of a stencil action.
pub open spec fn stencil_action_gl(action: StencilAction) -> u32 {
    match action {
        StencilAction::Keep => gl::KEEP,
        StencilAction::Zero => gl::ZERO,
        StencilAction::Replace => gl::REPLACE,
        StencilAction::Increment => gl::INCR,
        StencilAction::IncrementWrap => gl::INCR_WRAP,
        StencilAction::Decrement => gl::DECR,
        StencilAction::DecrementWrap => gl::DECR_WRAP,
        StencilAction::Invert => gl::INVERT,
    }
}

/// The GL buffer usage of a draw usage.
pub open spec fn draw_usage_gl(usage: DrawUsage) -> u32 {
    match usage {
        DrawUsage::Static => gl::STATIC_DRAW,
        DrawUsage::Dynamic => gl::DYNAMIC_DRAW,
    }
}

/// The GL pixel format of a texture format.
pub open spec fn texture_format_gl(format: TextureFormat) -> u32 {
    match format {
        TextureFormat::Rgba => gl::RGBA,
        TextureFormat::Red => gl::RED,
        TextureFormat::R8 => gl::R8,
    }
}

/// The GL filter of a texture filter.
pub open spec fn texture_filter_gl(filter: TextureFilter) -> u32 {
    match filter {
        TextureFilter::Linear => gl::LINEAR,
        TextureFilter::Nearest => gl::NEAREST,
    }
}

impl GlowValue for CullMode {
    type VALUE = Option<u32>;

    fn glow_value(&self) -> (r: Option<u32>)
        ensures
            r == cull_mode_gl(*self),
    {
        match self {
            CullMode::Disabled => None,
            CullMode::Front => Some(gl::FRONT),
            CullMode::Back => Some(gl::BACK),
        }
    }
}

impl GlowValue for CompareMode {
    type VALUE = Option<u32>;

    fn glow_value(&self) -> (r: Option<u32>)
        ensures
            r == compare_mode_gl(*self),
    {
        match self {
            CompareMode::Disabled => None,
            CompareMode::Less => Some(gl::LESS),
            CompareMode::Equal => Some(gl::EQUAL),
            CompareMode::LEqual => Some(gl::LEQUAL),
            CompareMode::Greater => Some(gl::GREATER),
            CompareMode::NotEqual => Some(gl::NOTEQUAL),
            CompareMode::GEqual => Some(gl::GEQUAL),
            CompareMode::Always => Some(gl::ALWAYS),
        }
    }
}

impl GlowValue for BlendFactor {
    type VALUE = u32;

    fn glow_value(&self) -> (r: u32)
        ensures
            r == blend_factor_gl(*self),
    {
        match self {
            BlendFactor::Zero => gl::ZERO,
            BlendFactor::One => gl::ONE,
            BlendFactor::SourceAlpha => gl::SRC_ALPHA,
            BlendFactor::SourceColor => gl::SRC_COLOR,
            BlendFactor::InverseSourceAlpha => gl::ONE_MINUS_SRC_ALPHA,
            BlendFactor::InverseSourceColor => gl::ONE_MINUS_SRC_COLOR,
            BlendFactor::DestinationAlpha => gl::DST_ALPHA,
            BlendFactor::DestinationColor => gl::SRC_COLOR,
            BlendFactor::InverseDestinationAlpha => gl::ONE_MINUS_DST_ALPHA,
            BlendFactor::InverseDestinationColor => gl::ONE_MINUS_DST_COLOR,
        }
    }
}

impl GlowValue for BlendOperation {
    type VALUE = u32;

    fn glow_value(&self) -> (r: u32)
        ensures
            r == blend_operation_gl(*self),
    {
        match self {
            BlendOperation::Add => gl::FUNC_ADD,
            BlendOperation::Subtract => gl::FUNC_SUBTRACT,
            BlendOperation::ReverseSubtract => gl::FUNC_REVERSE_SUBTRACT,
            BlendOperation::Max => gl::MAX,
            BlendOperation::Min => gl::MIN,
        }
    }
}

impl GlowValue for StencilAction {
    type VALUE = u32;

    fn glow_value(&self) -> (r: u32)
        ensures
            r == stencil_action_gl(*self),
    {
        match self {
            StencilAction::Keep => gl::KEEP,
            StencilAction::Zero => gl::ZERO,
            StencilAction::Replace => gl::REPLACE,
            StencilAction::Increment => gl::INCR,
            StencilAction::IncrementWrap => gl::INCR_WRAP,
            StencilAction::Decrement => gl::DECR,
            StencilAction::DecrementWrap => gl::DECR_WRAP,
            StencilAction::Invert => gl::INVERT,
        }
    }
}

impl GlowValue for DrawUsage {
    type VALUE = u32;

    fn glow_value(&self) -> (r: u32)
        ensures
            r == draw_usage_gl(*self),
    {
        match self {
            DrawUsage::Static => gl::STATIC_DRAW,
            DrawUsage::Dynamic => gl::DYNAMIC_DRAW,
        }
    }
}

impl GlowValue for TextureFormat {
    type VALUE = u32;

    fn glow_value(&self) -> (r: u32)
        ensures
            r == texture_format_gl(*self),
    {
        match self {
            TextureFormat::Rgba => gl::RGBA,
            TextureFormat::Red => gl::RED,
            TextureFormat::R8 => gl::R8,
        }
    }
}

impl GlowValue for TextureFilter {
    type VALUE = u32;

    fn glow_value(&self) -> (r: u32)
        ensures
            r == texture_filter_gl(*self),
    {
        match self {
            TextureFilter::Linear => gl::LINEAR,
            TextureFilter::Nearest => gl::NEAREST,
        }
    }
}

/// Buffer usage of the standalone renderer.
#[derive(Debug, Copy, Clone, Eq, PartialEq, Structural)]
pub enum Usage {
    Static,
    Dynamic,
}

impl GlowValue for Usage {
    type VALUE = u32;

    fn glow_value(&self) -> (r: u32)
        ensures
            r == (match *self {
                Usage::Static => gl::STATIC_DRAW,
                Usage::Dynamic => gl::DYNAMIC_DRAW,
            }),
    {
        match self {
            Usage::Static => gl::STATIC_DRAW,
            Usage::Dynamic => gl::DYNAMIC_DRAW,
        }
    }
}

} // verus!
