use nae::context2d::{needs_shader_update, Context2dState, PaintMode};
use nae::pipeline::BlendMode;
use nae::render_state::{texture_slot_unit, GlCommand};
use nae::texture::{texture_data_len, TextureTooBig};

#[test]
fn paint_mode_switch_flushes_other_batchers() {
    let mut c = Context2dState::new(800, 600, BlendMode::normal());
    assert_eq!(c.paint_mode, PaintMode::Empty);
    assert_eq!(c.set_paint_mode(PaintMode::Color), vec![PaintMode::Image, PaintMode::Text]);
    assert_eq!(c.set_paint_mode(PaintMode::Color), vec![]);
    assert_eq!(c.set_paint_mode(PaintMode::Image), vec![PaintMode::Color, PaintMode::Text]);
    assert_eq!(c.set_paint_mode(PaintMode::Text), vec![PaintMode::Color, PaintMode::Image]);
    assert_eq!(c.set_paint_mode(PaintMode::Empty), vec![]);
    assert_eq!(c.paint_mode, PaintMode::Empty);
}

#[test]
fn blend_and_size_changes() {
    let mut c = Context2dState::new(800, 600, BlendMode::normal());
    assert!(!c.set_blend(BlendMode::normal()));
    assert!(c.set_blend(BlendMode::add()));
    assert_eq!(c.blend_mode, BlendMode::add());
    assert!(c.set_size(1024, 768));
    assert_eq!((c.width, c.height), (1024, 768));
    assert!(c.begin_to_surface(true));
    assert!(c.is_drawing_surface);
    assert!(!c.begin_to_surface(false));
    assert!(c.is_drawing_surface);
    assert!(!c.set_size(10, 10));
    assert!(c.end());
    assert!(!c.end());
    assert!(!c.is_drawing && !c.is_drawing_surface);
}

#[test]
fn mask_commands_and_clear_flags() {
    let mut c = Context2dState::new(1, 1, BlendMode::normal());
    assert_eq!(c.clear_flags(), glow::COLOR_BUFFER_BIT);
    let begin = c.begin_mask();
    assert!(c.stencil);
    assert_eq!(c.clear_flags(), glow::COLOR_BUFFER_BIT | glow::STENCIL_BUFFER_BIT);
    assert_eq!(
        begin,
        vec![
            GlCommand::Enable(glow::STENCIL_TEST),
            GlCommand::StencilOp(glow::KEEP, glow::KEEP, glow::REPLACE),
            GlCommand::StencilFunc(glow::ALWAYS, 1, 0xff),
            GlCommand::StencilMask(0xff),
            GlCommand::DepthMask(false),
            GlCommand::ColorMask(false, false, false, false),
        ]
    );
    assert_eq!(
        c.end_mask(),
        vec![
            GlCommand::StencilFunc(glow::EQUAL, 1, 0xff),
            GlCommand::StencilMask(0),
            GlCommand::DepthMask(true),
            GlCommand::ColorMask(true, true, true, true),
        ]
    );
    assert_eq!(c.clear_mask(), vec![GlCommand::Disable(glow::STENCIL_TEST)]);
    assert!(!c.stencil);
    c.begin_mask();
    c.begin_to_surface(false);
    c.end();
    assert!(!c.stencil);
}

#[test]
fn shader_update_decisions() {
    assert!(!needs_shader_update(None, None));
    assert!(needs_shader_update(Some(1), None));
    assert!(needs_shader_update(None, Some(1)));
    assert!(needs_shader_update(Some(2), Some(2)));
    assert!(!needs_shader_update(Some(2), Some(3)));
}

#[test]
fn texture_units_and_sizes() {
    assert_eq!(texture_slot_unit(0), glow::TEXTURE0);
    assert_eq!(texture_slot_unit(7), glow::TEXTURE7);
    assert_eq!(texture_data_len(4, 2, 1024, 4), Ok(32));
    assert_eq!(texture_data_len(4, 2, 1024, 1), Ok(8));
    assert_eq!(texture_data_len(0, 10, 1024, 4), Ok(0));
    assert_eq!(
        texture_data_len(2048, 2, 1024, 4),
        Err(TextureTooBig { width: 2048, height: 2, max_size: 1024 })
    );
    assert_eq!(
        texture_data_len(2, 1025, 1024, 4),
        Err(TextureTooBig { width: 2, height: 1025, max_size: 1024 })
    );
}
