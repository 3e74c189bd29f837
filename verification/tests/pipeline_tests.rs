use nae::gl;
use nae::gfx::{
    ColorMask, CompareMode, DepthStencil, GlowValue, PipelineOptions, StencilAction,
    StencilOptions, Usage,
};
use nae::pipeline::{BlendFactor, BlendMode, BlendOperation, CullMode, DrawUsage};
use nae::render_state::{
    pipeline_state_commands, should_disable_stencil, DrawCall, GlCommand, GraphicsState,
};
use nae::resources::{TextureFilter, TextureFormat};
use nae::system::GraphicsAPI;

#[test]
fn blend_mode_constructors() {
    let m = BlendMode::new(BlendFactor::One, BlendFactor::Zero);
    assert_eq!(m, BlendMode::none());
    assert_eq!(m.op, BlendOperation::Add);
    let m = BlendMode::with_operation(BlendFactor::SourceAlpha, BlendFactor::One, BlendOperation::Max);
    assert_eq!(m.src, BlendFactor::SourceAlpha);
    assert_eq!(m.dst, BlendFactor::One);
    assert_eq!(m.op, BlendOperation::Max);
    assert_eq!(BlendMode::normal().src, BlendFactor::SourceAlpha);
    assert_eq!(BlendMode::normal().dst, BlendFactor::InverseSourceAlpha);
    assert_eq!(BlendMode::add(), BlendMode::new(BlendFactor::One, BlendFactor::One));
    assert_eq!(BlendMode::multiply(), BlendMode::new(BlendFactor::DestinationColor, BlendFactor::InverseSourceAlpha));
    assert_eq!(BlendMode::screen(), BlendMode::new(BlendFactor::One, BlendFactor::InverseSourceColor));
    assert_eq!(BlendMode::erase(), BlendMode::new(BlendFactor::Zero, BlendFactor::InverseSourceColor));
}

#[test]
fn default_core_pipeline_options() {
    let o = nae::pipeline::PipelineOptions::default();
    assert_eq!(o.color_blend, None);
    assert_eq!(o.alpha_blend, None);
    assert_eq!(o.cull_mode, CullMode::Disabled);
    assert_eq!(o.depth_stencil, nae::pipeline::DepthStencil::Disabled);
}

#[test]
fn glow_values_match_glow_constants() {
    assert_eq!(BlendFactor::Zero.glow_value(), glow::ZERO);
    assert_eq!(BlendFactor::One.glow_value(), glow::ONE);
    assert_eq!(BlendFactor::SourceAlpha.glow_value(), glow::SRC_ALPHA);
    assert_eq!(BlendFactor::SourceColor.glow_value(), glow::SRC_COLOR);
    assert_eq!(BlendFactor::InverseSourceAlpha.glow_value(), glow::ONE_MINUS_SRC_ALPHA);
    assert_eq!(BlendFactor::InverseSourceColor.glow_value(), glow::ONE_MINUS_SRC_COLOR);
    assert_eq!(BlendFactor::DestinationAlpha.glow_value(), glow::DST_ALPHA);
    assert_eq!(BlendFactor::DestinationColor.glow_value(), glow::SRC_COLOR);
    assert_eq!(BlendFactor::InverseDestinationAlpha.glow_value(), glow::ONE_MINUS_DST_ALPHA);
    assert_eq!(BlendFactor::InverseDestinationColor.glow_value(), glow::ONE_MINUS_DST_COLOR);
    assert_eq!(BlendOperation::Add.glow_value(), glow::FUNC_ADD);
    assert_eq!(BlendOperation::Subtract.glow_value(), glow::FUNC_SUBTRACT);
    assert_eq!(BlendOperation::ReverseSubtract.glow_value(), glow::FUNC_REVERSE_SUBTRACT);
    assert_eq!(BlendOperation::Min.glow_value(), glow::MIN);
    assert_eq!(BlendOperation::Max.glow_value(), glow::MAX);
    assert_eq!(CullMode::Disabled.glow_value(), None);
    assert_eq!(CullMode::Front.glow_value(), Some(glow::FRONT));
    assert_eq!(CullMode::Back.glow_value(), Some(glow::BACK));
    assert_eq!(CompareMode::Disabled.glow_value(), None);
    assert_eq!(CompareMode::Less.glow_value(), Some(glow::LESS));
    assert_eq!(CompareMode::Equal.glow_value(), Some(glow::EQUAL));
    assert_eq!(CompareMode::LEqual.glow_value(), Some(glow::LEQUAL));
    assert_eq!(CompareMode::Greater.glow_value(), Some(glow::GREATER));
    assert_eq!(CompareMode::NotEqual.glow_value(), Some(glow::NOTEQUAL));
    assert_eq!(CompareMode::GEqual.glow_value(), Some(glow::GEQUAL));
    assert_eq!(CompareMode::Always.glow_value(), Some(glow::ALWAYS));
    assert_eq!(StencilAction::Keep.glow_value(), glow::KEEP);
    assert_eq!(StencilAction::Zero.glow_value(), glow::ZERO);
    assert_eq!(StencilAction::Replace.glow_value(), glow::REPLACE);
    assert_eq!(StencilAction::Increment.glow_value(), glow::INCR);
    assert_eq!(StencilAction::IncrementWrap.glow_value(), glow::INCR_WRAP);
    assert_eq!(StencilAction::Decrement.glow_value(), glow::DECR);
    assert_eq!(StencilAction::DecrementWrap.glow_value(), glow::DECR_WRAP);
    assert_eq!(StencilAction::Invert.glow_value(), glow::INVERT);
    assert_eq!(DrawUsage::Static.glow_value(), glow::STATIC_DRAW);
    assert_eq!(DrawUsage::Dynamic.glow_value(), glow::DYNAMIC_DRAW);
    assert_eq!(Usage::Static.glow_value(), glow::STATIC_DRAW);
    assert_eq!(Usage::Dynamic.glow_value(), glow::DYNAMIC_DRAW);
    assert_eq!(TextureFormat::Rgba.glow_value(), glow::RGBA);
    assert_eq!(TextureFormat::Red.glow_value(), glow::RED);
    assert_eq!(TextureFormat::R8.glow_value(), glow::R8);
    assert_eq!(TextureFilter::Linear.glow_value(), glow::LINEAR);
    assert_eq!(TextureFilter::Nearest.glow_value(), glow::NEAREST);
}

#[test]
fn gl_constants_match_glow() {
    assert_eq!(gl::STENCIL_TEST, glow::STENCIL_TEST);
    assert_eq!(gl::DEPTH_TEST, glow::DEPTH_TEST);
    assert_eq!(gl::CULL_FACE, glow::CULL_FACE);
    assert_eq!(gl::BLEND, glow::BLEND);
    assert_eq!(gl::FLOAT, glow::FLOAT);
    assert_eq!(gl::UNSIGNED_SHORT, glow::UNSIGNED_SHORT);
    assert_eq!(gl::UNSIGNED_INT, glow::UNSIGNED_INT);
    assert_eq!(gl::TRIANGLES, glow::TRIANGLES);
}

fn keep_stencil(compare: CompareMode) -> StencilOptions {
    StencilOptions {
        stencil_fail: StencilAction::Keep,
        depth_fail: StencilAction::Keep,
        pass: StencilAction::Keep,
        compare,
        read_mask: 0xff,
        write_mask: 0x0f,
        reference: 3,
    }
}

#[test]
fn stencil_disabled_only_when_it_does_nothing() {
    assert!(should_disable_stencil(&None));
    assert!(should_disable_stencil(&Some(keep_stencil(CompareMode::Always))));
    assert!(!should_disable_stencil(&Some(keep_stencil(CompareMode::Less))));
    let mut s = keep_stencil(CompareMode::Always);
    s.pass = StencilAction::Replace;
    assert!(!should_disable_stencil(&Some(s)));
}

fn options() -> PipelineOptions {
    PipelineOptions {
        color_blend: None,
        alpha_blend: None,
        cull_mode: CullMode::Disabled,
        depth_stencil: DepthStencil { write: false, compare: CompareMode::Disabled },
        color_mask: ColorMask { r: true, g: true, b: true, a: true },
        stencil: None,
    }
}

#[test]
fn pipeline_commands_everything_off() {
    assert_eq!(
        pipeline_state_commands(&options()),
        vec![
            GlCommand::Disable(glow::STENCIL_TEST),
            GlCommand::Disable(glow::DEPTH_TEST),
            GlCommand::DepthMask(false),
            GlCommand::ColorMask(true, true, true, true),
            GlCommand::Disable(glow::CULL_FACE),
            GlCommand::Disable(glow::BLEND),
        ]
    );
}

#[test]
fn pipeline_commands_everything_on() {
    let mut o = options();
    o.stencil = Some(keep_stencil(CompareMode::Disabled));
    o.stencil.as_mut().unwrap().pass = StencilAction::Replace;
    o.depth_stencil = DepthStencil { write: true, compare: CompareMode::LEqual };
    o.color_mask = ColorMask { r: true, g: false, b: true, a: false };
    o.cull_mode = CullMode::Back;
    o.color_blend = Some(BlendMode::add());
    assert_eq!(
        pipeline_state_commands(&o),
        vec![
            GlCommand::Enable(glow::STENCIL_TEST),
            GlCommand::StencilMask(0x0f),
            GlCommand::StencilOp(glow::KEEP, glow::KEEP, glow::REPLACE),
            GlCommand::StencilFunc(glow::ALWAYS, 3, 0xff),
            GlCommand::Enable(glow::DEPTH_TEST),
            GlCommand::DepthFunc(glow::LEQUAL),
            GlCommand::DepthMask(true),
            GlCommand::ColorMask(true, false, true, false),
            GlCommand::Enable(glow::CULL_FACE),
            GlCommand::CullFace(glow::BACK),
            GlCommand::Enable(glow::BLEND),
            GlCommand::BlendFunc(glow::ONE, glow::ONE),
            GlCommand::BlendEquation(glow::FUNC_ADD),
        ]
    );
}

#[test]
fn pipeline_commands_alpha_blend_only_uses_normal_color_blend() {
    let mut o = options();
    o.alpha_blend = Some(BlendMode::with_operation(BlendFactor::One, BlendFactor::Zero, BlendOperation::Max));
    let commands = pipeline_state_commands(&o);
    assert_eq!(
        &commands[5..],
        &[
            GlCommand::Enable(glow::BLEND),
            GlCommand::BlendFuncSeparate(glow::SRC_ALPHA, glow::ONE_MINUS_SRC_ALPHA, glow::ONE, glow::ZERO),
            GlCommand::BlendEquationSeparate(glow::FUNC_ADD, glow::MAX),
        ]
    );
    o.color_blend = Some(BlendMode::erase());
    let commands = pipeline_state_commands(&o);
    assert_eq!(
        commands[6],
        GlCommand::BlendFuncSeparate(glow::ZERO, glow::ONE_MINUS_SRC_COLOR, glow::ONE, glow::ZERO)
    );
}

#[test]
fn graphics_state_counts_draws_per_pass() {
    let mut g = GraphicsState::new(&GraphicsAPI::OpenGl3_3);
    assert_eq!(g.draw_calls(), 0);
    assert!(!g.running() && !g.pipeline_in_use() && !g.indices_in_use());
    g.begin_to();
    assert!(g.running());
    g.set_pipeline();
    assert!(g.pipeline_in_use());
    g.bind_vertex_buffer();
    assert_eq!(g.draw(2, 6), DrawCall::Arrays { mode: glow::TRIANGLES, first: 2, count: 6 });
    g.bind_index_buffer();
    assert_eq!(
        g.draw(3, 9),
        DrawCall::Elements { mode: glow::TRIANGLES, count: 9, index_type: glow::UNSIGNED_INT, byte_offset: 12 }
    );
    g.draw(0, 3);
    assert!(g.indices_in_use());
    assert_eq!(g.draw_calls_running(), 3);
    assert_eq!(g.draw_calls(), 0);
    g.end();
    assert!(!g.running() && !g.pipeline_in_use() && !g.indices_in_use());
    assert_eq!(g.draw_calls_running(), 0);
    assert_eq!(g.draw_calls(), 3);
    g.begin_to();
    g.set_pipeline();
    g.draw(0, 3);
    g.end();
    assert_eq!(g.draw_calls(), 1);
}

#[test]
fn graphics_state_index_type_follows_api() {
    let mut g = GraphicsState::new(&GraphicsAPI::WebGl);
    g.begin_to();
    g.set_pipeline();
    g.bind_index_buffer();
    assert_eq!(
        g.draw(0, 3),
        DrawCall::Elements { mode: glow::TRIANGLES, count: 3, index_type: glow::UNSIGNED_SHORT, byte_offset: 0 }
    );
    g.set_pipeline();
    assert_eq!(g.draw(1, 3), DrawCall::Arrays { mode: glow::TRIANGLES, first: 1, count: 3 });
}
