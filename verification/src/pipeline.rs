//! Render pipeline descriptions: blending, depth, culling and draw usage.

use vstd::prelude::*;

verus! {

/// BLending factor computed
#[derive(Debug, Copy, Clone, Eq, PartialEq, Structural)]
pub enum BlendFactor {
    Zero,
    One,
    SourceColor,
    InverseSourceColor,
    DestinationColor,
    InverseDestinationColor,
    SourceAlpha,
    InverseSourceAlpha,
    DestinationAlpha,
    InverseDestinationAlpha,
}

/// Blending equation used to combine source and destiny
#[derive(Debug, Copy, Clone, Eq, PartialEq, Structural)]
pub enum BlendOperation {
    Add,
    Subtract,
    ReverseSubtract,
    Min,
    Max,
}

/// Blending mode used to draw
#[derive(Debug, Clone, Eq, PartialEq, Copy, Structural)]
pub struct BlendMode {
    pub src: BlendFactor,
    pub dst: BlendFactor,
    pub op: BlendOperation,
}

/// Normal alpha blending: `SourceAlpha`, `InverseSourceAlpha`, `Add`.
pub open spec fn normal_blend_mode() -> BlendMode {
    BlendMode {
        src: BlendFactor::SourceAlpha,
        dst: BlendFactor::InverseSourceAlpha,
        op: BlendOperation::Add,
    }
}

impl BlendMode {
    /// Creates a new blend mode using the ADD operation
    pub fn new(source: BlendFactor, destination: BlendFactor) -> (r: Self)
        ensures
            r == (BlendMode { src: source, dst: destination, op: BlendOperation::Add }),
    {
        Self::with_operation(source, destination, BlendOperation::Add)
    }

    /// Creates a new blend mode
    pub fn with_operation(
        source: BlendFactor,
        destination: BlendFactor,
        operation: BlendOperation,
    ) -> (r: Self)
        ensures
            r == (BlendMode { src: source, dst: destination, op: operation }),
    {
        Self { src: source, dst: destination, op: operation }
    }

    /// Draws the source over the destination: `One`, `Zero`, `Add`.
    pub fn none() -> (r: Self)
        ensures
            r == (BlendMode { src: BlendFactor::One, dst: BlendFactor::Zero, op: BlendOperation::Add }),
    {
        Self::new(BlendFactor::One, BlendFactor::Zero)
    }

    /// Alpha blending: `SourceAlpha`, `InverseSourceAlpha`, `Add`.
    pub fn normal() -> (r: Self)
        ensures
            r == normal_blend_mode(),
    {
        Self::new(BlendFactor::SourceAlpha, BlendFactor::InverseSourceAlpha)
    }

    /// Additive blending: `One`, `One`, `Add`.
    pub fn add() -> (r: Self)
        ensures
            r == (BlendMode { src: BlendFactor::One, dst: BlendFactor::One, op: BlendOperation::Add }),
    {
        Self::new(BlendFactor::One, BlendFactor::One)
    }

    /// Multiplicative blending: `DestinationColor`, `InverseSourceAlpha`, `Add`.
    pub fn multiply() -> (r: Self)
        ensures
            r == (BlendMode {
                src: BlendFactor::DestinationColor,
                dst: BlendFactor::InverseSourceAlpha,
                op: BlendOperation::Add,
            }),
    {
        Self::new(BlendFactor::DestinationColor, BlendFactor::InverseSourceAlpha)
    }

    /// Screen blending: `One`, `InverseSourceColor`, `Add`.
    pub fn screen() -> (r: Self)
        ensures
            r == (BlendMode {
                src: BlendFactor::One,
                dst: BlendFactor::InverseSourceColor,
                op: BlendOperation::Add,
            }),
    {
        Self::new(BlendFactor::One, BlendFactor::InverseSourceColor)
    }

    /// Erasing: `Zero`, `InverseSourceColor`, `Add`.
    pub fn erase() -> (r: Self)
        ensures
            r == (BlendMode {
                src: BlendFactor::Zero,
                dst: BlendFactor::InverseSourceColor,
                op: BlendOperation::Add,
            }),
    {
        Self::new(BlendFactor::Zero, BlendFactor::InverseSourceColor)
    }
}

/// Represents depth comparison
#[derive(Debug, Copy, Clone, Eq, PartialEq, Structural)]
pub enum DepthStencil {
    /// No depth test
    Disabled,
    Less,
    Equal,
    LEqual,
    Greater,
    NotEqual,
    GEqual,
    Always,
}

/// Represents face culling modes
#[derive(Debug, Copy, Clone, Eq, PartialEq, Structural)]
pub enum CullMode {
    /// No face culling
    Disabled,
    Front,
    Back,
}

/// Options to use with the render pipeline
#[derive(Debug, Clone, Eq, PartialEq, Structural)]
pub struct PipelineOptions {
    pub color_blend: Option<BlendMode>,
    pub alpha_blend: Option<BlendMode>,
    pub cull_mode: CullMode,
    pub depth_stencil: DepthStencil,
}

impl Default for PipelineOptions {
    /// No depth test, no culling, no blending.
    fn default() -> (r: Self)
        ensures
            r == (PipelineOptions {
                color_blend: None,
                alpha_blend: None,
                cull_mode: CullMode::Disabled,
                depth_stencil: DepthStencil::Disabled,
            }),
    {
        Self {
            depth_stencil: DepthStencil::Disabled,
            cull_mode: CullMode::Disabled,
            color_blend: None,
            alpha_blend: None,
        }
    }
}

/// Represents the draw usage
#[derive(Debug, Copy, Clone, Eq, PartialEq, Structural)]
pub enum DrawUsage {
    Static,
    Dynamic,
}

} // verus!
