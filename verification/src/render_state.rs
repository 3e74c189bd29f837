//! The GL state changes a pipeline makes when it is bound, and the draw
//! bookkeeping of a graphics pass.

use vstd::prelude::*;
use crate::gl;
use crate::gfx::{
    blend_factor_gl, blend_operation_gl, compare_mode_gl, cull_mode_gl, stencil_action_gl,
    ColorMask, CompareMode, DepthStencil, GlowValue, PipelineOptions, StencilAction,
    StencilOptions,
};
use crate::pipeline::{normal_blend_mode, BlendMode};
use crate::system::GraphicsAPI;

verus! {

/// One OpenGL state call, with its arguments.
#[derive(Debug, Clone, Copy, Eq, PartialEq, Structural)]
pub enum GlCommand {
    Enable(u32),
    Disable(u32),
    StencilMask(u32),
    /// `stencil_op(stencil_fail, depth_fail, pass)`
    StencilOp(u32, u32, u32),
    /// `stencil_func(function, reference, read_mask)`
    StencilFunc(u32, i32, u32),
    DepthFunc(u32),
    DepthMask(bool),
    ColorMask(bool, bool, bool, bool),
    CullFace(u32),
    /// `blend_func(source, destination)`
    BlendFunc(u32, u32),
    BlendEquation(u32),
    /// `blend_func_separate(color source, color destination, alpha source, alpha destination)`
    BlendFuncSeparate(u32, u32, u32, u32),
    /// `blend_equation_separate(color, alpha)`
    BlendEquationSeparate(u32, u32),
}

/// Whether stencil settings leave the stencil test off: no settings, or
/// settings that always pass and keep the buffer on every outcome.
pub open spec fn stencil_is_noop(stencil: Option<StencilOptions>) -> bool {
    match stencil {
        Some(s) => s.compare == CompareMode::Always && s.stencil_fail == StencilAction::Keep
            && s.depth_fail == StencilAction::Keep && s.pass == StencilAction::Keep,
        None => true,
    }
}

/// Whether the stencil test can be disabled for these settings.
pub fn should_disable_stencil(stencil: &Option<StencilOptions>) -> (r: bool)
    ensures
        r == stencil_is_noop(*stencil),
{
    match stencil {
        Some(stencil) => {
            stencil.compare == CompareMode::Always && stencil.stencil_fail == StencilAction::Keep
                && stencil.depth_fail == StencilAction::Keep && stencil.pass
                == StencilAction::Keep
        },
        None => true,
    }
}

/// GL calls for the stencil test.
pub open spec fn stencil_commands(stencil: Option<StencilOptions>) -> Seq<GlCommand> {
    if stencil_is_noop(stencil) {
        seq![GlCommand::Disable(gl::STENCIL_TEST)]
    } else {
        match stencil {
            Some(s) => seq![
                GlCommand::Enable(gl::STENCIL_TEST),
                GlCommand::StencilMask(s.write_mask),
                GlCommand::StencilOp(
                    stencil_action_gl(s.stencil_fail),
                    stencil_action_gl(s.depth_fail),
                    stencil_action_gl(s.pass),
                ),
                GlCommand::StencilFunc(
                    match compare_mode_gl(s.compare) {
                        Some(f) => f,
                        None => gl::ALWAYS,
                    },
                    s.reference as i32,
                    s.read_mask,
                ),
            ],
            None => Seq::empty(),
        }
    }
}

/// GL calls for the depth test, including the depth write mask.
pub open spec fn depth_commands(depth: DepthStencil) -> Seq<GlCommand> {
    let test = match compare_mode_gl(depth.compare) {
        Some(f) => seq![GlCommand::Enable(gl::DEPTH_TEST), GlCommand::DepthFunc(f)],
        None => seq![GlCommand::Disable(gl::DEPTH_TEST)],
    };
    test.push(GlCommand::DepthMask(depth.write))
}

/// GL calls for face culling.
pub open spec fn cull_commands(cull: Option<u32>) -> Seq<GlCommand> {
    match cull {
        Some(face) => seq![GlCommand::Enable(gl::CULL_FACE), GlCommand::CullFace(face)],
        None => seq![GlCommand::Disable(gl::CULL_FACE)],
    }
}

/// GL calls that blend the color with `color` and the alpha with `alpha`.
pub open spec fn separate_blend_commands(color: BlendMode, alpha: BlendMode) -> Seq<GlCommand> {
    seq![
        GlCommand::Enable(gl::BLEND),
        GlCommand::BlendFuncSeparate(
            blend_factor_gl(color.src),
            blend_factor_gl(color.dst),
            blend_factor_gl(alpha.src),
            blend_factor_gl(alpha.dst),
        ),
        GlCommand::BlendEquationSeparate(blend_operation_gl(color.op), blend_operation_gl(alpha.op)),
    ]
}

/// GL calls for blending: one mode for everything when only a color mode is
/// set; separate modes when an alpha mode is set, the color one defaulting to
/// normal alpha blending; blending off when neither is set.
pub open spec fn blend_commands(color: Option<BlendMode>, alpha: Option<BlendMode>) -> Seq<GlCommand> {
    match (color, alpha) {
        (Some(c), None) => seq![
            GlCommand::Enable(gl::BLEND),
            GlCommand::BlendFunc(blend_factor_gl(c.src), blend_factor_gl(c.dst)),
            GlCommand::BlendEquation(blend_operation_gl(c.op)),
        ],
        (Some(c), Some(a)) => separate_blend_commands(c, a),
        (None, Some(a)) => separate_blend_commands(normal_blend_mode(), a),
        (None, None) => seq![GlCommand::Disable(gl::BLEND)],
    }
}

/// Every GL state call that binding a pipeline with `options` makes, in order:
/// stencil, depth, color mask, culling, blending.
pub open spec fn pipeline_commands(options: PipelineOptions) -> Seq<GlCommand> {
    stencil_commands(options.stencil) + depth_commands(options.depth_stencil) + seq![
        GlCommand::ColorMask(
            options.color_mask.r,
            options.color_mask.g,
            options.color_mask.b,
            options.color_mask.a,
        ),
    ] + cull_commands(cull_mode_gl(options.cull_mode)) + blend_commands(
        options.color_blend,
        options.alpha_blend,
    )
}

fn push_separate_blend(commands: &mut Vec<GlCommand>, color: BlendMode, alpha: BlendMode)
    ensures
        final(commands)@ == old(commands)@ + separate_blend_commands(color, alpha),
{
    let ghost start = commands@;
    commands.push(GlCommand::Enable(gl::BLEND));
    commands.push(
        GlCommand::BlendFuncSeparate(
            color.src.glow_value(),
            color.dst.glow_value(),
            alpha.src.glow_value(),
            alpha.dst.glow_value(),
        ),
    );
    commands.push(GlCommand::BlendEquationSeparate(color.op.glow_value(), alpha.op.glow_value()));
    assert(commands@ =~= start + separate_blend_commands(color, alpha));
}

fn push_stencil(commands: &mut Vec<GlCommand>, stencil: &Option<StencilOptions>)
    ensures
        final(commands)@ == old(commands)@ + stencil_commands(*stencil),
{
    let ghost start = commands@;
    if should_disable_stencil(stencil) {
        commands.push(GlCommand::Disable(gl::STENCIL_TEST));
    } else {
        if let Some(opts) = stencil {
            commands.push(GlCommand::Enable(gl::STENCIL_TEST));
            commands.push(GlCommand::StencilMask(opts.write_mask));
            commands.push(
                GlCommand::StencilOp(
                    opts.stencil_fail.glow_value(),
                    opts.depth_fail.glow_value(),
                    opts.pass.glow_value(),
                ),
            );
            let function = match opts.compare.glow_value() {
                Some(f) => f,
                None => gl::ALWAYS,
            };
            commands.push(GlCommand::StencilFunc(function, opts.reference as i32, opts.read_mask));
        }
    }
    assert(commands@ =~= start + stencil_commands(*stencil));
}

fn push_depth(commands: &mut Vec<GlCommand>, depth: &DepthStencil)
    ensures
        final(commands)@ == old(commands)@ + depth_commands(*depth),
{
    let ghost start = commands@;
    if let Some(d) = depth.compare.glow_value() {
        commands.push(GlCommand::Enable(gl::DEPTH_TEST));
        commands.push(GlCommand::DepthFunc(d));
    } else {
        commands.push(GlCommand::Disable(gl::DEPTH_TEST));
    }
    commands.push(GlCommand::DepthMask(depth.write));
    assert(commands@ =~= start + depth_commands(*depth));
}

fn push_cull(commands: &mut Vec<GlCommand>, cull: Option<u32>)
    ensures
        final(commands)@ == old(commands)@ + cull_commands(cull),
{
    let ghost start = commands@;
    if let Some(mode) = cull {
        commands.push(GlCommand::Enable(gl::CULL_FACE));
        commands.push(GlCommand::CullFace(mode));
    } else {
        commands.push(GlCommand::Disable(gl::CULL_FACE));
    }
    assert(commands@ =~= start + cull_commands(cull));
}

fn push_blend(commands: &mut Vec<GlCommand>, color: Option<BlendMode>, alpha: Option<BlendMode>)
    ensures
        final(commands)@ == old(commands)@ + blend_commands(color, alpha),
{
    let ghost start = commands@;
    match (color, alpha) {
        (Some(cbm), None) => {
            commands.push(GlCommand::Enable(gl::BLEND));
            commands.push(GlCommand::BlendFunc(cbm.src.glow_value(), cbm.dst.glow_value()));
            commands.push(GlCommand::BlendEquation(cbm.op.glow_value()));
        },
        (Some(cbm), Some(abm)) => {
            push_separate_blend(commands, cbm, abm);
        },
        (None, Some(abm)) => {
            let cbm = BlendMode::normal();
            push_separate_blend(commands, cbm, abm);
        },
        (None, None) => {
            commands.push(GlCommand::Disable(gl::BLEND));
        },
    }
    assert(commands@ =~= start + blend_commands(color, alpha));
}

/// The GL state calls that bind a pipeline with `options`.  Binding the
/// pipeline's vertex array and program is the caller's part.
pub fn pipeline_state_commands(options: &PipelineOptions) -> (r: Vec<GlCommand>)
    ensures
        r@ == pipeline_commands(*options),
{
    let mut commands: Vec<GlCommand> = Vec::new();
    push_stencil(&mut commands, &options.stencil);
    push_depth(&mut commands, &options.depth_stencil);
    commands.push(
        GlCommand::ColorMask(
            options.color_mask.r,
            options.color_mask.g,
            options.color_mask.b,
            options.color_mask.a,
        ),
    );
    let cull = options.cull_mode.glow_value();
    push_cull(&mut commands, cull);
    push_blend(&mut commands, options.color_blend, options.alpha_blend);
    assert(commands@ =~= pipeline_commands(*options));
    commands
}


/// Whether the GL comparison function `f` lets a fragment pass when its
/// value `a` is compared with the stored or reference value `b`, as the GL
/// specification defines the functions `GL_NEVER` (`0x0200`) to `GL_ALWAYS`;
/// other values pass nothing.
pub open spec fn gl_compare_passes(f: u32, a: int, b: int) -> bool {
    if f == gl::LESS {
        a < b
    } else if f == gl::EQUAL {
        a == b
    } else if f == gl::LEQUAL {
        a <= b
    } else if f == gl::GREATER {
        a > b
    } else if f == gl::NOTEQUAL {
        a != b
    } else if f == gl::GEQUAL {
        a >= b
    } else {
        f == gl::ALWAYS
    }
}

/// Whether a test with compare mode `m` lets `a` pass against `b`, as the
/// modes are named; a disabled test lets everything pass.
pub open spec fn mode_passes(m: CompareMode, a: int, b: int) -> bool {
    match m {
        CompareMode::Disabled => true,
        CompareMode::Less => a < b,
        CompareMode::Equal => a == b,
        CompareMode::LEqual => a <= b,
        CompareMode::Greater => a > b,
        CompareMode::NotEqual => a != b,
        CompareMode::GEqual => a >= b,
        CompareMode::Always => true,
    }
}

/// Binding a pipeline with stencil settings that are not a no-op turns the
/// stencil test on first, sets its write mask and actions, and then its
/// function: the function lets a fragment pass exactly when the settings'
/// compare mode does, against the settings' reference under their read mask.
pub proof fn law_stencil_function_follows_compare(options: PipelineOptions)
    requires
        options.stencil is Some,
        !stencil_is_noop(options.stencil),
    ensures
        pipeline_commands(options)[0] == GlCommand::Enable(gl::STENCIL_TEST),
        pipeline_commands(options)[1] == GlCommand::StencilMask(options.stencil->0.write_mask),
        pipeline_commands(options)[3] matches GlCommand::StencilFunc(f, reference, read_mask) && {
            &&& reference == options.stencil->0.reference as i32
            &&& read_mask == options.stencil->0.read_mask
            &&& forall|a: int, b: int|
                gl_compare_passes(f, a, b) == mode_passes(options.stencil->0.compare, a, b)
        },
{
    let st = options.stencil->0;
    let sc = stencil_commands(options.stencil);
    assert(sc.len() == 4);
    let rest = depth_commands(options.depth_stencil);
    assert(pipeline_commands(options)[3] == sc[3]);
    assert(pipeline_commands(options)[0] == sc[0]);
    assert(pipeline_commands(options)[1] == sc[1]);
}

/// The depth test is on exactly when its compare mode is not disabled, and
/// its function then lets a fragment pass exactly when the compare mode
/// does; the depth write mask is the settings' write flag.
pub proof fn law_depth_function_follows_compare(depth: DepthStencil)
    ensures
        depth.compare == CompareMode::Disabled ==> depth_commands(depth) == seq![
            GlCommand::Disable(gl::DEPTH_TEST),
            GlCommand::DepthMask(depth.write),
        ],
        depth.compare != CompareMode::Disabled ==> {
            &&& depth_commands(depth).len() == 3
            &&& depth_commands(depth)[0] == GlCommand::Enable(gl::DEPTH_TEST)
            &&& depth_commands(depth)[1] matches GlCommand::DepthFunc(f) && forall|a: int, b: int|
                gl_compare_passes(f, a, b) == mode_passes(depth.compare, a, b)
            &&& depth_commands(depth)[2] == GlCommand::DepthMask(depth.write)
        },
{
}

/// The bookkeeping of a graphics pass.
#[derive(Debug, Clone, Copy, Eq, PartialEq, Structural)]
pub struct PassState {
    /// GL type of the indices: `UNSIGNED_SHORT` on WebGL 1, `UNSIGNED_INT` elsewhere
    pub index_type: u32,
    /// A pipeline has been set in this pass
    pub pipeline_in_use: bool,
    /// An index buffer has been bound since the pipeline was set
    pub indices_in_use: bool,
    /// A pass has begun and not yet ended
    pub running: bool,
    /// Draw calls issued in the running pass
    pub draw_calls: u32,
    /// Draw calls issued in the last finished pass
    pub last_pass_draw_calls: u32,
}

/// The GL draw call a `draw` asks for.
#[derive(Debug, Clone, Copy, Eq, PartialEq, Structural)]
pub enum DrawCall {
    /// `draw_elements(mode, count, index_type, byte_offset)`
    Elements { mode: u32, count: i32, index_type: u32, byte_offset: i32 },
    /// `draw_arrays(mode, first, count)`
    Arrays { mode: u32, first: i32, count: i32 },
}

/// The index type used with a graphics API.
pub open spec fn index_type_for(api: GraphicsAPI) -> u32 {
    if api is WebGl {
        gl::UNSIGNED_SHORT
    } else {
        gl::UNSIGNED_INT
    }
}

/// The state after a pass begins.
pub open spec fn after_begin(s: PassState) -> PassState {
    PassState { running: true, ..s }
}

/// The state after the running pass ends.
pub open spec fn after_end(s: PassState) -> PassState {
    PassState {
        index_type: s.index_type,
        pipeline_in_use: false,
        indices_in_use: false,
        running: false,
        draw_calls: 0,
        last_pass_draw_calls: s.draw_calls,
    }
}

/// The state after one draw.
pub open spec fn after_draw(s: PassState) -> PassState {
    PassState { draw_calls: (s.draw_calls + 1) as u32, ..s }
}

/// The state after `k` draws.
pub open spec fn after_draws(s: PassState, k: nat) -> PassState
    decreases k,
{
    if k == 0 {
        s
    } else {
        after_draw(after_draws(s, (k - 1) as nat))
    }
}

/// Tracks what a graphics pass has set up and how many draw calls it made.
pub struct GraphicsState {
    state: PassState,
}

impl View for GraphicsState {
    type V = PassState;

    closed spec fn view(&self) -> PassState {
        self.state
    }
}

impl GraphicsState {
    /// A state with no pass running, for the given API.
    pub fn new(api: &GraphicsAPI) -> (r: Self)
        ensures
            r@ == (PassState {
                index_type: index_type_for(*api),
                pipeline_in_use: false,
                indices_in_use: false,
                running: false,
                draw_calls: 0,
                last_pass_draw_calls: 0,
            }),
    {
        let index_type = match api {
            GraphicsAPI::WebGl => gl::UNSIGNED_SHORT,
            _ => gl::UNSIGNED_INT,
        };
        GraphicsState {
            state: PassState {
                index_type,
                pipeline_in_use: false,
                indices_in_use: false,
                running: false,
                draw_calls: 0,
                last_pass_draw_calls: 0,
            },
        }
    }

    /// Starts a pass; a pass must not be running already.
    pub fn begin_to(&mut self)
        requires
            !old(self)@.running,
        ensures
            final(self)@ == after_begin(old(self)@),
    {
        self.state.running = true;
    }

    /// Ends the running pass: clears the pipeline and index bindings and
    /// records the pass's draw calls.
    pub fn end(&mut self)
        requires
            old(self)@.running,
        ensures
            final(self)@ == after_end(old(self)@),
    {
        self.state.indices_in_use = false;
        self.state.pipeline_in_use = false;
        self.state.running = false;
        self.state.last_pass_draw_calls = self.state.draw_calls;
        self.state.draw_calls = 0;
    }

    /// Records that a pipeline was set: later draws use no index buffer until
    /// one is bound.
    pub fn set_pipeline(&mut self)
        ensures
            final(self)@ == (PassState {
                pipeline_in_use: true,
                indices_in_use: false,
                ..old(self)@
            }),
    {
        self.state.pipeline_in_use = true;
        self.state.indices_in_use = false;
    }

    /// Checks that a vertex buffer may be bound: a pipeline must be set.
    pub fn bind_vertex_buffer(&self)
        requires
            self@.pipeline_in_use,
    {
    }

    /// Records that an index buffer was bound; a pipeline must be set.
    pub fn bind_index_buffer(&mut self)
        requires
            old(self)@.pipeline_in_use,
        ensures
            final(self)@ == (PassState { indices_in_use: true, ..old(self)@ }),
    {
        self.state.indices_in_use = true;
    }

    /// Counts a draw of `count` vertices from `offset` and returns the GL call
    /// to make: indexed when an index buffer is bound (the offset counted in
    /// 4-byte indices), plain triangles otherwise.  A pipeline must be set.
    pub fn draw(&mut self, offset: i32, count: i32) -> (r: DrawCall)
        requires
            old(self)@.pipeline_in_use,
            old(self)@.draw_calls < u32::MAX,
            old(self)@.indices_in_use ==> i32::MIN <= offset * 4 <= i32::MAX,
        ensures
            final(self)@ == after_draw(old(self)@),
            old(self)@.indices_in_use ==> r == (DrawCall::Elements {
                mode: gl::TRIANGLES,
                count,
                index_type: old(self)@.index_type,
                byte_offset: (offset * 4) as i32,
            }),
            !old(self)@.indices_in_use ==> r == (DrawCall::Arrays {
                mode: gl::TRIANGLES,
                first: offset,
                count,
            }),
    {
        let call = if self.state.indices_in_use {
            DrawCall::Elements {
                mode: gl::TRIANGLES,
                count,
                index_type: self.state.index_type,
                byte_offset: offset * 4,
            }
        } else {
            DrawCall::Arrays { mode: gl::TRIANGLES, first: offset, count }
        };
        self.state.draw_calls = self.state.draw_calls + 1;
        call
    }

    /// Whether a pass is running.
    pub fn running(&self) -> (r: bool)
        ensures
            r == self@.running,
    {
        self.state.running
    }

    /// Whether a pipeline is set.
    pub fn pipeline_in_use(&self) -> (r: bool)
        ensures
            r == self@.pipeline_in_use,
    {
        self.state.pipeline_in_use
    }

    /// Whether an index buffer is bound.
    pub fn indices_in_use(&self) -> (r: bool)
        ensures
            r == self@.indices_in_use,
    {
        self.state.indices_in_use
    }

    /// Draw calls issued so far in the running pass.
    pub fn draw_calls_running(&self) -> (r: u32)
        ensures
            r == self@.draw_calls,
    {
        self.state.draw_calls
    }

    /// Draw calls issued in the last finished pass.
    pub fn draw_calls(&self) -> (r: u32)
        ensures
            r == self@.last_pass_draw_calls,
    {
        self.state.last_pass_draw_calls
    }
}


/// A pass counts its draws: beginning a pass with no draws counted, drawing
/// `k` times and ending it makes `draw_calls()` report `k`, and leaves nothing
/// bound and nothing counted for the next pass.
pub proof fn law_pass_counts_its_draws(s: PassState, k: nat)
    requires
        !s.running,
        s.draw_calls == 0,
        k <= u32::MAX,
    ensures
        after_end(after_draws(after_begin(s), k)).last_pass_draw_calls == k,
        after_end(after_draws(after_begin(s), k)).draw_calls == 0,
        !after_end(after_draws(after_begin(s), k)).running,
        !after_end(after_draws(after_begin(s), k)).pipeline_in_use,
        !after_end(after_draws(after_begin(s), k)).indices_in_use,
{
    lemma_draws_count(after_begin(s), k);
}

proof fn lemma_draws_count(s: PassState, k: nat)
    requires
        s.draw_calls + k <= u32::MAX,
    ensures
        after_draws(s, k).draw_calls == s.draw_calls + k,
        after_draws(s, k).running == s.running,
        after_draws(s, k).index_type == s.index_type,
    decreases k,
{
    if k > 0 {
        lemma_draws_count(s, (k - 1) as nat);
    }
}


/// The texture unit of a slot: `TEXTURE0` plus the slot.
pub open spec fn texture_unit(slot: u32) -> u32 {
    (gl::TEXTURE0 + slot) as u32
}

/// The GL texture unit bound for a texture slot; the backend offers slots 0
/// to 7 and panics on any other.
pub fn texture_slot_unit(slot: u32) -> (r: u32)
    requires
        slot < 8,
    ensures
        r == texture_unit(slot),
{
    gl::TEXTURE0 + slot
}

} // verus!
