//! A small compositing engine: an invert effect and a weighted blend of two
//! RGB frames, with the lifecycle of the rendering resources behind them.
pub mod effects;
pub mod engine;
pub mod error;
pub mod frame;

pub use effects::{blend_pixels, invert_pixels, BLEND_SCALE};
pub use engine::{
    resolve_location, BlendPass, Engine, GpuResources, InvertPass, ProgramInfo, Session,
    SurfaceRequest, QUAD_VERTICES,
};
pub use error::EngineError;
pub use frame::{TextureInfo, CHANNELS};
