//! Verified core of a small multimedia layer: a deterministic random number
//! generator, input mappings, pipeline and texture descriptions, and the
//! integer bookkeeping behind the graphics backends.

pub mod batch;
pub mod color;
pub mod context2d;
pub mod draw_state;
pub mod event_loop;
pub mod extras;
pub mod gfx;
pub mod gl;
pub mod input;
pub mod pcg;
pub mod pipeline;
pub mod render_state;
pub mod resources;
pub mod shader;
pub mod system;
pub mod texture;
pub mod vertex;
