//! The bookkeeping of the 2D drawing API: the transform stack, which batcher
//! has pending work and must be flushed when the paint settings change, and
//! the stencil mask mode.

use vstd::prelude::*;
use crate::pipeline::{normal_blend_mode, BlendMode};

verus! {

/// A stack of transforms whose bottom entry is never removed, so there is
/// always a current transform.
pub struct MatrixStack<T> {
    base: T,
    pushed: Vec<T>,
}

impl<T> View for MatrixStack<T> {
    type V = Seq<T>;

    /// Bottom first.
    closed spec fn view(&self) -> Seq<T> {
        seq![self.base] + self.pushed@
    }
}

/// A stack after a pop: the top removed, unless it is the only entry.
pub open spec fn popped<T>(stack: Seq<T>) -> Seq<T> {
    if stack.len() <= 1 {
        stack
    } else {
        stack.drop_last()
    }
}

impl<T> MatrixStack<T> {
    /// A stack holding only `base`.
    pub fn new(base: T) -> (r: Self)
        ensures
            r@ == seq![base],
    {
        let r = MatrixStack { base, pushed: Vec::new() };
        assert(r@ =~= seq![base]);
        r
    }

    /// Makes `matrix` the current transform.  The drawing API pushes the
    /// product of the current transform and the new one.
    pub fn push(&mut self, matrix: T)
        ensures
            final(self)@ == old(self)@.push(matrix),
    {
        self.pushed.push(matrix);
        assert(self@ =~= old(self)@.push(matrix));
    }

    /// Drops the current transform, unless it is the bottom one.
    pub fn pop(&mut self)
        ensures
            final(self)@ == popped(old(self)@),
    {
        if self.pushed.len() == 0 {
            return;
        }
        let _ = self.pushed.pop();
        assert(self@ =~= old(self)@.drop_last());
    }

    /// The current transform.
    pub fn transform(&self) -> (r: &T)
        ensures
            *r == self@.last(),
            self@.len() >= 1,
    {
        let n = self.pushed.len();
        if n == 0 {
            &self.base
        } else {
            &self.pushed[n - 1]
        }
    }
}

/// Pushing a transform and popping it restores the stack, and popping never
/// empties a stack.
pub proof fn law_push_pop_restores<T>(stack: Seq<T>, matrix: T)
    requires
        stack.len() >= 1,
    ensures
        popped(stack.push(matrix)) == stack,
        popped(stack).len() >= 1,
{
    assert(stack.push(matrix).drop_last() =~= stack);
}

/// What the drawing API is currently painting.
#[derive(Debug, Clone, Copy, Eq, PartialEq, Structural)]
pub enum PaintMode {
    /// Nothing is being painted
    Idle,
    Color,
    Image,
    Pattern,
    Text,
}

/// How drawing interacts with the stencil mask.
#[derive(Debug, Clone, Copy, Eq, PartialEq, Structural)]
pub enum MaskMode {
    /// Drawing ignores the mask
    Off,
    /// Drawing writes the mask
    Drawing,
    /// Drawing is clipped by the mask
    Masking,
}

/// The paint settings the drawing API tracks.
#[derive(Debug, Clone, Copy, Eq, PartialEq, Structural)]
pub struct PaintState {
    pub current_mode: PaintMode,
    pub last_paint_mode: PaintMode,
    pub blend_mode: BlendMode,
    pub last_blend_mode: BlendMode,
    /// Identity of the custom shader in use, if any
    pub shader: Option<u64>,
    pub last_shader: Option<u64>,
    pub mask: MaskMode,
    /// Stencil value the next clear writes, if any
    pub stencil_clear: Option<i32>,
}

/// The batcher holding the pending work of a paint mode; idle and text
/// painting have none here.
pub open spec fn batcher_of(mode: PaintMode) -> Option<PaintMode> {
    match mode {
        PaintMode::Color => Some(PaintMode::Color),
        PaintMode::Image => Some(PaintMode::Image),
        PaintMode::Pattern => Some(PaintMode::Pattern),
        _ => None,
    }
}

/// Whether the paint settings changed since the last flush.
pub open spec fn settings_changed(s: PaintState) -> bool {
    s.current_mode != s.last_paint_mode || s.blend_mode != s.last_blend_mode || s.shader
        != s.last_shader
}

fn batcher_for(mode: PaintMode) -> (r: Option<PaintMode>)
    ensures
        r == batcher_of(mode),
{
    match mode {
        PaintMode::Color => Some(PaintMode::Color),
        PaintMode::Image => Some(PaintMode::Image),
        PaintMode::Pattern => Some(PaintMode::Pattern),
        _ => None,
    }
}

impl PaintState {
    /// The state of a new drawing API: idle, normal alpha blending, no
    /// custom shader, no mask.
    pub fn new() -> (r: Self)
        ensures
            r.current_mode == PaintMode::Idle,
            r.last_paint_mode == PaintMode::Idle,
            r.blend_mode == normal_blend_mode(),
            r.last_blend_mode == normal_blend_mode(),
            r.shader.is_none(),
            r.last_shader.is_none(),
            r.mask == MaskMode::Off,
            r.stencil_clear.is_none(),
    {
        let blend_mode = BlendMode::normal();
        PaintState {
            current_mode: PaintMode::Idle,
            last_paint_mode: PaintMode::Idle,
            blend_mode,
            last_blend_mode: blend_mode,
            shader: None,
            last_shader: None,
            mask: MaskMode::Off,
            stencil_clear: None,
        }
    }

    /// Records the settings as flushed.  Returns the batcher to flush first:
    /// the one of the last paint mode, when any setting changed.
    pub fn flush_if_necessary(&mut self) -> (r: Option<PaintMode>)
        ensures
            r == (if settings_changed(*old(self)) {
                batcher_of(old(self).last_paint_mode)
            } else {
                None
            }),
            *final(self) == (PaintState {
                last_shader: old(self).shader,
                last_blend_mode: old(self).blend_mode,
                last_paint_mode: old(self).current_mode,
                ..*old(self)
            }),
    {
        let need_flush = self.current_mode != self.last_paint_mode || self.blend_mode
            != self.last_blend_mode || self.shader != self.last_shader;
        let flushed = if need_flush {
            batcher_for(self.last_paint_mode)
        } else {
            None
        };
        self.last_shader = self.shader;
        self.last_blend_mode = self.blend_mode;
        self.last_paint_mode = self.current_mode;
        flushed
    }

    /// Switches to painting with `mode`; returns the batcher to flush first.
    pub fn paint_mode(&mut self, mode: PaintMode) -> (r: Option<PaintMode>)
        ensures
            r == (if settings_changed(PaintState { current_mode: mode, ..*old(self) }) {
                batcher_of(old(self).last_paint_mode)
            } else {
                None
            }),
            *final(self) == (PaintState {
                current_mode: mode,
                last_shader: old(self).shader,
                last_blend_mode: old(self).blend_mode,
                last_paint_mode: mode,
                ..*old(self)
            }),
    {
        self.current_mode = mode;
        self.flush_if_necessary()
    }

    /// Starts writing the mask: the stencil is cleared to `0xff` from now on.
    /// Returns the batcher to flush before, and to clear the mask with.  No
    /// mask may be in use.
    pub fn start_mask(&mut self) -> (r: Option<PaintMode>)
        requires
            old(self).mask == MaskMode::Off,
        ensures
            r == batcher_of(old(self).last_paint_mode),
            *final(self) == (PaintState {
                mask: MaskMode::Drawing,
                stencil_clear: Some(0xff),
                ..*old(self)
            }),
    {
        self.mask = MaskMode::Drawing;
        self.stencil_clear = Some(0xff);
        batcher_for(self.last_paint_mode)
    }

    /// Ends writing the mask: later drawing is clipped by it.  Returns the
    /// batcher to flush before.
    pub fn apply_mask(&mut self) -> (r: Option<PaintMode>)
        requires
            old(self).mask == MaskMode::Drawing,
        ensures
            r == batcher_of(old(self).last_paint_mode),
            *final(self) == (PaintState { mask: MaskMode::Masking, ..*old(self) }),
    {
        self.mask = MaskMode::Masking;
        batcher_for(self.last_paint_mode)
    }

    /// Stops masking: later drawing ignores the mask and clears no stencil.
    /// Returns the batcher to flush before.
    pub fn end_mask(&mut self) -> (r: Option<PaintMode>)
        ensures
            r == batcher_of(old(self).last_paint_mode),
            *final(self) == (PaintState { mask: MaskMode::Off, stencil_clear: None, ..*old(self) }),
    {
        self.stencil_clear = None;
        self.mask = MaskMode::Off;
        batcher_for(self.last_paint_mode)
    }
}

/// After a flush check nothing is pending: an immediate second check flushes
/// nothing.
pub proof fn law_flush_is_idempotent(s: PaintState)
    ensures
        !settings_changed(PaintState {
            last_shader: s.shader,
            last_blend_mode: s.blend_mode,
            last_paint_mode: s.current_mode,
            ..s
        }),
{
}

} // verus!
