use nae::context2d::{byte_per_pixel, Attr as DataAttr, VertexData};
use nae::gfx::GlowValue;
use nae::resources::{TextureFilter, TextureFormat};
use nae::shader::{default_api, read_spirv, to_glsl_version, GlslVersion, SpirvError};
use nae::system::{clamp_size, BuilderOpts, GraphicsAPI};
use nae::texture::{bytes_per_pixel, max_suggest_size, TextureOptions};
use nae::vertex::{vertex_layout, Attr, GlowVertexAttr, VertexAttr, VertexFormat};

#[test]
fn vertex_format_sizes() {
    assert_eq!(VertexFormat::Float1.size(), 1);
    assert_eq!(VertexFormat::Float2.size(), 2);
    assert_eq!(VertexFormat::Float3.size(), 3);
    assert_eq!(VertexFormat::Float4.size(), 4);
    assert_eq!(VertexFormat::Float3.bytes(), 12);
    assert_eq!(VertexFormat::Float4.bytes(), 16);
    assert!(!VertexFormat::Float2.normalized());
    assert_eq!(VertexFormat::Float2.glow_value(), glow::FLOAT);
    assert_eq!(VertexData::Float1.size(), 1);
    assert_eq!(VertexData::Float4.size(), 4);
    assert!(!VertexData::Float3.normalized());
    assert_eq!(VertexData::Float3.glow_value(), glow::FLOAT);
}

#[test]
fn attributes_are_built() {
    let _ = Attr::new("a_position", VertexFormat::Float2);
    let _ = DataAttr::new("a_color", VertexData::Float4);
    let a = VertexAttr::new(3, VertexFormat::Float4);
    assert_eq!(a.location, 3);
    assert_eq!(a.format, VertexFormat::Float4);
}

#[test]
fn vertex_layout_position_and_color() {
    let attrs = [VertexAttr::new(0, VertexFormat::Float3), VertexAttr::new(1, VertexFormat::Float4)];
    let (stride, layout) = vertex_layout(&attrs);
    assert_eq!(stride, 28);
    assert_eq!(
        layout,
        vec![
            GlowVertexAttr { location: 0, size: 3, data_type: glow::FLOAT, normalized: false, offset: 0 },
            GlowVertexAttr { location: 1, size: 4, data_type: glow::FLOAT, normalized: false, offset: 12 },
        ]
    );
    let (stride, layout) = vertex_layout(&[]);
    assert_eq!(stride, 0);
    assert!(layout.is_empty());
}

#[test]
fn texture_options_and_pixels() {
    let o = TextureOptions::default();
    assert_eq!(o.format, TextureFormat::Rgba);
    assert_eq!(o.internal_format, TextureFormat::Rgba);
    assert_eq!(o.min_filter, TextureFilter::Nearest);
    assert_eq!(o.mag_filter, TextureFilter::Nearest);
    assert_eq!(bytes_per_pixel(&TextureFormat::Red, &TextureFormat::R8), 1);
    assert_eq!(bytes_per_pixel(&TextureFormat::R8, &TextureFormat::Red), 4);
    assert_eq!(bytes_per_pixel(&TextureFormat::Rgba, &TextureFormat::Rgba), 4);
    assert_eq!(byte_per_pixel(TextureFormat::R8, TextureFormat::Red), 1);
    assert_eq!(byte_per_pixel(TextureFormat::Red, TextureFormat::R8), 4);
}

#[test]
fn glyph_texture_growth_is_clamped() {
    assert_eq!(max_suggest_size(1024, (2048, 512), (512, 512)), (1024, 1024));
    assert_eq!(max_suggest_size(1024, (2048, 512), (1024, 1024)), (2048, 512));
    assert_eq!(max_suggest_size(1024, (512, 512), (256, 256)), (512, 512));
    assert_eq!(max_suggest_size(1024, (512, 4096), (1024, 512)), (1024, 1024));
}

fn words_to_bytes(words: &[u32], little: bool) -> Vec<u8> {
    words
        .iter()
        .flat_map(|w| if little { w.to_le_bytes() } else { w.to_be_bytes() })
        .collect()
}

#[test]
fn spirv_in_either_byte_order() {
    let words = [0x07230203u32, 0x00010000, 0xdeadbeef, 7];
    assert_eq!(read_spirv(&words_to_bytes(&words, true)), Ok(words.to_vec()));
    assert_eq!(read_spirv(&words_to_bytes(&words, false)), Ok(words.to_vec()));
}

#[test]
fn spirv_errors() {
    assert_eq!(read_spirv(&[]), Err(SpirvError::MissingMagicNumber));
    assert_eq!(read_spirv(&[1, 2, 3]), Err(SpirvError::LengthNotMultipleOfFour));
    assert_eq!(read_spirv(&[1, 2, 3, 4]), Err(SpirvError::MissingMagicNumber));
    assert_eq!(SpirvError::LengthNotMultipleOfFour.message(), "input length not divisible by 4");
    assert_eq!(SpirvError::MissingMagicNumber.message(), "input missing SPIR-V magic number");
}

#[test]
fn glsl_versions_and_default_api() {
    assert_eq!(to_glsl_version(&GraphicsAPI::WebGl), Some(GlslVersion::V1_00Es));
    assert_eq!(to_glsl_version(&GraphicsAPI::WebGl2), Some(GlslVersion::V3_00Es));
    assert_eq!(to_glsl_version(&GraphicsAPI::OpenGl3_3), Some(GlslVersion::V3_30));
    assert_eq!(to_glsl_version(&GraphicsAPI::OpenGlEs2_0), Some(GlslVersion::V1_00Es));
    assert_eq!(to_glsl_version(&GraphicsAPI::Vulkan), None);
    assert_eq!(to_glsl_version(&GraphicsAPI::Unknown("x".to_string())), None);
    assert_eq!(default_api(true), GraphicsAPI::OpenGlEs2_0);
    assert_eq!(default_api(false), GraphicsAPI::OpenGl3_3);
}

#[test]
fn builder_defaults() {
    let o = BuilderOpts::default();
    assert_eq!(o.title, "Nae App");
    assert_eq!((o.width, o.height), (800, 600));
    assert!(!o.fullscreen && !o.maximized && !o.resizable);
    assert_eq!(o.fps_target, None);
    assert_eq!(o.min_size, None);
    assert_eq!(o.max_size, None);
}

#[test]
fn clamp_size_applies_limits() {
    assert_eq!(clamp_size(100, 50, None, None), (100, 50));
    assert_eq!(clamp_size(100, 50, Some((200, 10)), None), (200, 50));
    assert_eq!(clamp_size(100, 50, None, Some((80, 60))), (80, 50));
    assert_eq!(clamp_size(10, 900, Some((20, 20)), Some((640, 480))), (20, 480));
}
