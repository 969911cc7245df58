use vstd::prelude::*;

verus! {

/// Failures that the engine reports instead of rendering.
#[derive(Debug, Clone, Copy, PartialEq, Eq, Structural)]
pub enum EngineError {
    /// A rendering call came while no context was set up.
    NotSetUp,
    /// `setup` came while a context was already live.
    AlreadySetUp,
    /// The requested surface has a width or a height that is not positive.
    InvalidDimensions,
    /// The blend weight lies outside `0..=BLEND_SCALE`.
    InvalidBlendFactor,
    /// A frame has a non-positive side or a buffer of the wrong length.
    InvalidFrame,
    /// The frames handed to a blend do not share their dimensions.
    DimensionMismatch,
    /// A shader attribute or uniform could not be found by name.
    MissingShaderVariable,
}

} // verus!
