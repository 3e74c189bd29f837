use nae::draw_state::{MaskMode, MatrixStack, PaintMode, PaintState};
use nae::pipeline::BlendMode;

#[test]
fn matrix_stack_keeps_its_base() {
    let mut s = MatrixStack::new([1.0f32; 4]);
    assert_eq!(*s.transform(), [1.0; 4]);
    s.pop();
    assert_eq!(*s.transform(), [1.0; 4]);
    s.push([2.0; 4]);
    s.push([3.0; 4]);
    assert_eq!(*s.transform(), [3.0; 4]);
    s.pop();
    assert_eq!(*s.transform(), [2.0; 4]);
    s.pop();
    s.pop();
    s.pop();
    assert_eq!(*s.transform(), [1.0; 4]);
}

#[test]
fn paint_mode_flushes_previous_batcher_on_change() {
    let mut p = PaintState::new();
    assert_eq!(p.blend_mode, BlendMode::normal());
    assert_eq!(p.paint_mode(PaintMode::Color), None);
    assert_eq!(p.paint_mode(PaintMode::Color), None);
    assert_eq!(p.paint_mode(PaintMode::Image), Some(PaintMode::Color));
    p.blend_mode = BlendMode::add();
    assert_eq!(p.paint_mode(PaintMode::Image), Some(PaintMode::Image));
    assert_eq!(p.last_blend_mode, BlendMode::add());
    p.shader = Some(7);
    assert_eq!(p.flush_if_necessary(), Some(PaintMode::Image));
    assert_eq!(p.flush_if_necessary(), None);
    assert_eq!(p.paint_mode(PaintMode::Text), Some(PaintMode::Image));
    assert_eq!(p.paint_mode(PaintMode::Idle), None);
    assert_eq!(p.current_mode, PaintMode::Idle);
}

#[test]
fn mask_modes() {
    let mut p = PaintState::new();
    p.paint_mode(PaintMode::Pattern);
    assert_eq!(p.start_mask(), Some(PaintMode::Pattern));
    assert_eq!(p.mask, MaskMode::Drawing);
    assert_eq!(p.stencil_clear, Some(0xff));
    assert_eq!(p.apply_mask(), Some(PaintMode::Pattern));
    assert_eq!(p.mask, MaskMode::Masking);
    assert_eq!(p.end_mask(), Some(PaintMode::Pattern));
    assert_eq!(p.mask, MaskMode::Off);
    assert_eq!(p.stencil_clear, None);
}
