//! Vertex formats, attributes and texture sizing of the 2D drawing context.

use vstd::prelude::*;
use crate::gfx::GlowValue;
use crate::gl;
use crate::pipeline::BlendMode;
use crate::render_state::{gl_compare_passes, GlCommand};
use crate::resources::TextureFormat;

verus! {

/// Vertex data types of the 2D context
#[derive(Debug, Clone, Copy, Eq, PartialEq, Structural)]
pub enum VertexData {
    Float1,
    Float2,
    Float3,
    Float4,
}

impl VertexData {
    /// Number of components.
    pub fn size(&self) -> (r: i32)
        ensures
            r == (match *self {
                VertexData::Float1 => 1i32,
                VertexData::Float2 => 2i32,
                VertexData::Float3 => 3i32,
                VertexData::Float4 => 4i32,
            }),
    {
        match self {
            VertexData::Float1 => 1,
            VertexData::Float2 => 2,
            VertexData::Float3 => 3,
            VertexData::Float4 => 4,
        }
    }

    /// Whether the components are normalized: never, they are floats.
    pub fn normalized(&self) -> (r: bool)
        ensures
            !r,
    {
        false
    }
}

impl GlowValue for VertexData {
    type VALUE = u32;

    /// Every format is made of `GL_FLOAT` components.
    fn glow_value(&self) -> (r: u32)
        ensures
            r == gl::FLOAT,
    {
        gl::FLOAT
    }
}

/// A named shader attribute of the 2D context.
#[derive(Clone)]
pub struct Attr {
    name: String,
    vertex_data: VertexData,
}

impl Attr {
    /// The attribute's name.
    pub closed spec fn name_view(&self) -> Seq<char> {
        self.name@
    }

    /// The attribute's format.
    pub closed spec fn format_view(&self) -> VertexData {
        self.vertex_data
    }

    /// An attribute named `name` with components of `data_type`.
    pub fn new(name: &str, data_type: VertexData) -> (r: Self)
        ensures
            r.name_view() == name@,
            r.format_view() == data_type,
    {
        Self { name: String::from_str(name), vertex_data: data_type }
    }
}

/// Bytes per pixel of a texture with the given internal format and pixel
/// format: one for single-channel `R8` textures fed `Red` data, four otherwise.
pub fn byte_per_pixel(internal: TextureFormat, format: TextureFormat) -> (r: usize)
    ensures
        r == (if internal == TextureFormat::R8 && format == TextureFormat::Red {
            1usize
        } else {
            4usize
        }),
{
    match (internal, format) {
        (TextureFormat::R8, TextureFormat::Red) => 1,
        _ => 4,
    }
}


/// What the 2D context is currently painting.
#[derive(Debug, Clone, Copy, Eq, PartialEq, Structural)]
pub enum PaintMode {
    Color,
    Image,
    Text,
    Empty,
}

/// The batchers to flush, in order, when the paint mode changes from
/// `current` to `mode`: the two that `mode` does not use.
pub open spec fn paint_switch_flushes(current: PaintMode, mode: PaintMode) -> Seq<PaintMode> {
    if mode == current {
        Seq::empty()
    } else {
        match mode {
            PaintMode::Color => seq![PaintMode::Image, PaintMode::Text],
            PaintMode::Image => seq![PaintMode::Color, PaintMode::Text],
            PaintMode::Text => seq![PaintMode::Color, PaintMode::Image],
            PaintMode::Empty => Seq::empty(),
        }
    }
}

/// GL calls that start writing the stencil mask: every fragment drawn sets
/// the stencil to 1 and nothing reaches the color or depth buffers.
pub open spec fn begin_mask_commands() -> Seq<GlCommand> {
    seq![
        GlCommand::Enable(gl::STENCIL_TEST),
        GlCommand::StencilOp(gl::KEEP, gl::KEEP, gl::REPLACE),
        GlCommand::StencilFunc(gl::ALWAYS, 1, 0xff),
        GlCommand::StencilMask(0xff),
        GlCommand::DepthMask(false),
        GlCommand::ColorMask(false, false, false, false),
    ]
}

/// GL calls that stop writing the mask and clip drawing to it.
pub open spec fn end_mask_commands() -> Seq<GlCommand> {
    seq![
        GlCommand::StencilFunc(gl::EQUAL, 1, 0xff),
        GlCommand::StencilMask(0x00),
        GlCommand::DepthMask(true),
        GlCommand::ColorMask(true, true, true, true),
    ]
}

/// The state the 2D context keeps between drawing calls.
#[derive(Debug, Clone, Copy, Eq, PartialEq, Structural)]
pub struct Context2dState {
    pub paint_mode: PaintMode,
    /// The stencil mask is in use
    pub stencil: bool,
    /// A frame is being drawn
    pub is_drawing: bool,
    /// The frame being drawn goes to a surface
    pub is_drawing_surface: bool,
    pub blend_mode: BlendMode,
    pub width: i32,
    pub height: i32,
}

impl Context2dState {
    /// A context of the given size, not drawing, painting nothing, with no
    /// mask.
    pub fn new(width: i32, height: i32, blend_mode: BlendMode) -> (r: Self)
        ensures
            r == (Context2dState {
                paint_mode: PaintMode::Empty,
                stencil: false,
                is_drawing: false,
                is_drawing_surface: false,
                blend_mode,
                width,
                height,
            }),
    {
        Context2dState {
            paint_mode: PaintMode::Empty,
            stencil: false,
            is_drawing: false,
            is_drawing_surface: false,
            blend_mode,
            width,
            height,
        }
    }

    /// Switches the paint mode; returns the batchers to flush, in order.
    pub fn set_paint_mode(&mut self, mode: PaintMode) -> (r: Vec<PaintMode>)
        ensures
            r@ == paint_switch_flushes(old(self).paint_mode, mode),
            *final(self) == (Context2dState { paint_mode: mode, ..*old(self) }),
    {
        let mut flushes: Vec<PaintMode> = Vec::new();
        if mode == self.paint_mode {
            return flushes;
        }
        self.paint_mode = mode;
        match mode {
            PaintMode::Color => {
                flushes.push(PaintMode::Image);
                flushes.push(PaintMode::Text);
            },
            PaintMode::Image => {
                flushes.push(PaintMode::Color);
                flushes.push(PaintMode::Text);
            },
            PaintMode::Text => {
                flushes.push(PaintMode::Color);
                flushes.push(PaintMode::Image);
            },
            PaintMode::Empty => {},
        }
        assert(flushes@ =~= paint_switch_flushes(old(self).paint_mode, mode));
        flushes
    }

    /// Changes the blend mode.  Returns whether it changed, in which case the
    /// pending work is flushed first and the new blend function set.
    pub fn set_blend(&mut self, mode: BlendMode) -> (changed: bool)
        ensures
            changed == (mode != old(self).blend_mode),
            *final(self) == (Context2dState { blend_mode: mode, ..*old(self) }),
    {
        if mode != self.blend_mode {
            self.blend_mode = mode;
            return true;
        }
        false
    }

    /// Records the window size.  Returns whether the projection follows it
    /// now: only when no frame is being drawn.
    pub fn set_size(&mut self, width: i32, height: i32) -> (update_now: bool)
        ensures
            update_now == !old(self).is_drawing,
            *final(self) == (Context2dState { width, height, ..*old(self) }),
    {
        self.width = width;
        self.height = height;
        !self.is_drawing
    }

    /// Starts a frame, to a surface or to the window.  Returns whether it
    /// started: nothing happens while a frame is already being drawn.
    pub fn begin_to_surface(&mut self, to_surface: bool) -> (started: bool)
        ensures
            started == !old(self).is_drawing,
            started ==> *final(self) == (Context2dState {
                is_drawing: true,
                is_drawing_surface: to_surface,
                ..*old(self)
            }),
            !started ==> *final(self) == *old(self),
    {
        if self.is_drawing {
            return false;
        }
        self.is_drawing = true;
        self.is_drawing_surface = to_surface;
        true
    }

    /// Ends the frame.  Returns whether one was being drawn; if so the mask
    /// is cleared (see `clear_mask`) and the context goes back to the window.
    pub fn end(&mut self) -> (ended: bool)
        ensures
            ended == old(self).is_drawing,
            ended ==> *final(self) == (Context2dState {
                is_drawing: false,
                is_drawing_surface: false,
                stencil: false,
                ..*old(self)
            }),
            !ended ==> *final(self) == *old(self),
    {
        if !self.is_drawing {
            return false;
        }
        self.is_drawing = false;
        self.stencil = false;
        self.is_drawing_surface = false;
        true
    }

    /// The buffers a clear wipes: the color, and the stencil when a mask is in
    /// use.
    pub fn clear_flags(&self) -> (r: u32)
        ensures
            r == (if self.stencil {
                gl::COLOR_BUFFER_BIT | gl::STENCIL_BUFFER_BIT
            } else {
                gl::COLOR_BUFFER_BIT
            }),
    {
        let mut flags = gl::COLOR_BUFFER_BIT;
        if self.stencil {
            flags = flags | gl::STENCIL_BUFFER_BIT;
        }
        flags
    }

    /// Starts writing the mask, after flushing every batcher; returns the GL
    /// calls to make.
    pub fn begin_mask(&mut self) -> (r: Vec<GlCommand>)
        ensures
            r@ == begin_mask_commands(),
            *final(self) == (Context2dState { stencil: true, ..*old(self) }),
    {
        self.stencil = true;
        let mut commands: Vec<GlCommand> = Vec::new();
        commands.push(GlCommand::Enable(gl::STENCIL_TEST));
        commands.push(GlCommand::StencilOp(gl::KEEP, gl::KEEP, gl::REPLACE));
        commands.push(GlCommand::StencilFunc(gl::ALWAYS, 1, 0xff));
        commands.push(GlCommand::StencilMask(0xff));
        commands.push(GlCommand::DepthMask(false));
        commands.push(GlCommand::ColorMask(false, false, false, false));
        assert(commands@ =~= begin_mask_commands());
        commands
    }

    /// Stops writing the mask, after flushing every batcher; returns the GL
    /// calls that clip later drawing to it.
    pub fn end_mask(&self) -> (r: Vec<GlCommand>)
        ensures
            r@ == end_mask_commands(),
    {
        let mut commands: Vec<GlCommand> = Vec::new();
        commands.push(GlCommand::StencilFunc(gl::EQUAL, 1, 0xff));
        commands.push(GlCommand::StencilMask(0x00));
        commands.push(GlCommand::DepthMask(true));
        commands.push(GlCommand::ColorMask(true, true, true, true));
        assert(commands@ =~= end_mask_commands());
        commands
    }

    /// Drops the mask, after flushing every batcher and the GL queue; returns
    /// the GL calls to make.
    pub fn clear_mask(&mut self) -> (r: Vec<GlCommand>)
        ensures
            r@ == seq![GlCommand::Disable(gl::STENCIL_TEST)],
            *final(self) == (Context2dState { stencil: false, ..*old(self) }),
    {
        self.stencil = false;
        let mut commands: Vec<GlCommand> = Vec::new();
        commands.push(GlCommand::Disable(gl::STENCIL_TEST));
        assert(commands@ =~= seq![GlCommand::Disable(gl::STENCIL_TEST)]);
        commands
    }
}

/// Whether setting the custom shader `new` over `current` (identities, `None`
/// for the default shader) flushes and rebinds: when exactly one of them is
/// set, or when both are set and equal.  Two different custom shaders do not
/// rebind.
pub open spec fn shader_update_needed(new: Option<u64>, current: Option<u64>) -> bool {
    match (new, current) {
        (None, None) => false,
        (Some(a), Some(b)) => a == b,
        _ => true,
    }
}

/// Decides whether setting a custom shader flushes and rebinds.
pub fn needs_shader_update(new: Option<u64>, current: Option<u64>) -> (r: bool)
    ensures
        r == shader_update_needed(new, current),
{
    if new.is_none() && current.is_none() {
        return false;
    }
    if new.is_some() && current.is_none() || new.is_none() && current.is_some() {
        return true;
    }
    match (new, current) {
        (Some(s1), Some(s2)) => s1 == s2,
        _ => false,
    }
}


/// Switching paint modes never flushes the batcher of the mode switched to.
pub proof fn law_switch_keeps_new_mode_batch(current: PaintMode, mode: PaintMode)
    ensures
        !paint_switch_flushes(current, mode).contains(mode),
{
    let f = paint_switch_flushes(current, mode);
    if f.contains(mode) {
        let i = choose|i: int| 0 <= i < f.len() && f[i] == mode;
        assert(f[i] == mode);
    }
}

/// Switching to another mode that paints flushes the batchers of both other
/// painting modes, each once, and switching to the mode already in use or to
/// `Empty` flushes nothing.
pub proof fn law_switch_flushes_other_batchers(current: PaintMode, mode: PaintMode, other: PaintMode)
    ensures
        (mode == current || mode == PaintMode::Empty) ==> paint_switch_flushes(current, mode).len()
            == 0,
        (mode != current && mode != PaintMode::Empty && other != mode && other != PaintMode::Empty)
            ==> paint_switch_flushes(current, mode).contains(other),
        (mode != current && mode != PaintMode::Empty) ==> paint_switch_flushes(current, mode).len()
            == 2 && paint_switch_flushes(current, mode)[0] != paint_switch_flushes(current, mode)[1],
{
    if mode != current && mode != PaintMode::Empty && other != mode && other != PaintMode::Empty {
        let f = paint_switch_flushes(current, mode);
        if f[0] == other {
            assert(f.contains(other));
        } else {
            assert(f[1] == other);
            assert(f.contains(other));
        }
    }
}

/// Writing the mask lets every fragment through and stores 1 in the stencil
/// where it lands, while nothing reaches the color or depth buffers; once the
/// mask is applied, a fragment passes exactly where the stored stencil is 1,
/// the stencil is no longer written, and color and depth are written again.
pub proof fn law_mask_writes_then_clips()
    ensures
        begin_mask_commands()[0] == GlCommand::Enable(gl::STENCIL_TEST),
        begin_mask_commands()[1] == GlCommand::StencilOp(gl::KEEP, gl::KEEP, gl::REPLACE),
        begin_mask_commands()[2] matches GlCommand::StencilFunc(f, reference, mask) && reference
            == 1 && mask == 0xff && forall|b: int| gl_compare_passes(f, reference as int, b),
        begin_mask_commands()[3] == GlCommand::StencilMask(0xff),
        begin_mask_commands().contains(GlCommand::ColorMask(false, false, false, false)),
        begin_mask_commands().contains(GlCommand::DepthMask(false)),
        end_mask_commands()[0] matches GlCommand::StencilFunc(f, reference, mask) && mask == 0xff
            && forall|b: int| gl_compare_passes(f, reference as int, b) == (b == 1),
        end_mask_commands()[1] == GlCommand::StencilMask(0),
        end_mask_commands().contains(GlCommand::ColorMask(true, true, true, true)),
        end_mask_commands().contains(GlCommand::DepthMask(true)),
{
    assert(begin_mask_commands()[5] == GlCommand::ColorMask(false, false, false, false));
    assert(begin_mask_commands()[4] == GlCommand::DepthMask(false));
    assert(end_mask_commands()[3] == GlCommand::ColorMask(true, true, true, true));
    assert(end_mask_commands()[2] == GlCommand::DepthMask(true));
}

} // verus!
