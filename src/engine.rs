//! The lifecycle of the rendering context: which calls are allowed in which
//! state, and which GPU objects each pass works with.
use vstd::prelude::*;
use crate::effects::BLEND_SCALE;
use crate::error::EngineError;
use crate::frame::TextureInfo;

verus! {

/// Vertices of the full-screen quad: two triangles.
pub const QUAD_VERTICES: i32 = 6;

/// Handles of one linked shader program and of the two vertex buffers bound
/// to its `position` and `texCoord` attributes.
#[derive(Debug, Clone, Copy, PartialEq, Eq, Structural)]
pub struct ProgramInfo {
    pub program: u32,
    pub position_buffer: u32,
    pub texture_buffer: u32,
}

/// Every GPU object that setup allocates and teardown releases.
#[derive(Debug, Clone, Copy, PartialEq, Eq, Structural)]
pub struct GpuResources {
    /// The texture bound to unit 0.
    pub texture1: u32,
    /// The texture bound to unit 1.
    pub texture2: u32,
    pub invert: ProgramInfo,
    pub blend: ProgramInfo,
}

/// A live context: the surface size, the blend weight and the resources.
#[derive(Debug, Clone, Copy, PartialEq, Eq, Structural)]
pub struct Session {
    pub width: i32,
    pub height: i32,
    pub blend_weight: u16,
    pub resources: GpuResources,
}

/// A surface size and blend weight that setup has accepted.
#[derive(Debug, Clone, Copy, PartialEq, Eq, Structural)]
pub struct SurfaceRequest {
    pub width: i32,
    pub height: i32,
    pub blend_weight: u16,
}

/// What the invert pass draws with: its program, the unit-0 texture that
/// receives the frame, and the size of the upload and of the readback.
#[derive(Debug, Clone, Copy, PartialEq, Eq, Structural)]
pub struct InvertPass {
    pub program: u32,
    pub texture: u32,
    pub width: i32,
    pub height: i32,
}

/// What the blend pass draws with: its program, the textures on units 0
/// and 1, and the size of the uploads and of the readback.
#[derive(Debug, Clone, Copy, PartialEq, Eq, Structural)]
pub struct BlendPass {
    pub program: u32,
    pub first_texture: u32,
    pub second_texture: u32,
    pub width: i32,
    pub height: i32,
}

impl SurfaceRequest {
    pub open spec fn valid(&self) -> bool {
        self.width > 0 && self.height > 0 && self.blend_weight <= BLEND_SCALE
    }
}

/// The session that setup records for an accepted request.
pub open spec fn session_of(req: SurfaceRequest, resources: GpuResources) -> Session {
    Session {
        width: req.width,
        height: req.height,
        blend_weight: req.blend_weight,
        resources,
    }
}

/// The state that teardown leaves: no context, whatever there was.
pub open spec fn after_teardown(state: Option<Session>) -> Option<Session> {
    None
}

/// The resources that teardown hands back for release.
pub open spec fn released(state: Option<Session>) -> Option<GpuResources> {
    match state {
        Some(s) => Some(s.resources),
        None => None,
    }
}

/// Tearing down a second time changes nothing and releases nothing more.
pub proof fn lemma_teardown_idempotent(state: Option<Session>)
    ensures
        after_teardown(after_teardown(state)) == after_teardown(state),
        released(after_teardown(state)) is None,
{
}

/// The state of the engine: at most one live context.
pub struct Engine {
    session: Option<Session>,
}

impl View for Engine {
    type V = Option<Session>;

    closed spec fn view(&self) -> Option<Session> {
        self.session
    }
}

impl Engine {
    /// A live context always has a positive size and a weight in range.
    pub open spec fn wf(&self) -> bool {
        self@ matches Some(s) ==> s.width > 0 && s.height > 0 && s.blend_weight <= BLEND_SCALE
    }

    /// An engine with no context.
    pub fn new() -> (r: Engine)
        ensures
            r@ is None,
            r.wf(),
    {
        Engine { session: None }
    }

    /// Whether a context is live.
    pub fn is_set_up(&self) -> (r: bool)
        ensures
            r == self@ is Some,
    {
        self.session.is_some()
    }

    /// The live session, if any.
    pub fn session(&self) -> (r: Option<Session>)
        ensures
            r == self@,
    {
        self.session
    }

    /// Decides whether a context of the given size and blend weight may be
    /// created now. Nothing is created: the caller builds the surface and
    /// the GPU objects, then records them with `complete_setup`.
    pub fn check_setup(&self, width: i32, height: i32, blend_weight: u16) -> (r: Result<
        SurfaceRequest,
        EngineError,
    >)
        ensures
            r == Err::<SurfaceRequest, EngineError>(EngineError::AlreadySetUp) <==> self@ is Some,
            r == Err::<SurfaceRequest, EngineError>(EngineError::InvalidDimensions) <==> self@ is None
                && (width <= 0 || height <= 0),
            r == Err::<SurfaceRequest, EngineError>(EngineError::InvalidBlendFactor) <==> self@ is None
                && width > 0 && height > 0 && blend_weight > BLEND_SCALE,
            r is Ok <==> self@ is None && width > 0 && height > 0 && blend_weight <= BLEND_SCALE,
            r is Ok ==> r == Ok::<SurfaceRequest, EngineError>(
                (SurfaceRequest { width, height, blend_weight }),
            ),
            r is Ok ==> r->Ok_0.valid(),
    {
        if self.session.is_some() {
            return Err(EngineError::AlreadySetUp);
        }
        if width <= 0 || height <= 0 {
            return Err(EngineError::InvalidDimensions);
        }
        if blend_weight > BLEND_SCALE {
            return Err(EngineError::InvalidBlendFactor);
        }
        Ok(SurfaceRequest { width, height, blend_weight })
    }

    /// Records the context built for `req`. Refused, with the engine left as
    /// it was, while another context is live or when `req` is out of range.
    pub fn complete_setup(&mut self, req: SurfaceRequest, resources: GpuResources) -> (r: Result<
        (),
        EngineError,
    >)
        ensures
            r == Err::<(), EngineError>(EngineError::AlreadySetUp) <==> old(self)@ is Some,
            r == Err::<(), EngineError>(EngineError::InvalidDimensions) <==> old(self)@ is None
                && (req.width <= 0 || req.height <= 0),
            r == Err::<(), EngineError>(EngineError::InvalidBlendFactor) <==> old(self)@ is None
                && req.width > 0 && req.height > 0 && req.blend_weight > BLEND_SCALE,
            r is Ok <==> old(self)@ is None && req.valid(),
            r is Ok ==> final(self)@ == Some(session_of(req, resources)),
            r is Err ==> final(self)@ == old(self)@,
            old(self).wf() ==> final(self).wf(),
    {
        if self.session.is_some() {
            return Err(EngineError::AlreadySetUp);
        }
        if req.width <= 0 || req.height <= 0 {
            return Err(EngineError::InvalidDimensions);
        }
        if req.blend_weight > BLEND_SCALE {
            return Err(EngineError::InvalidBlendFactor);
        }
        self.session = Some(
            Session {
                width: req.width,
                height: req.height,
                blend_weight: req.blend_weight,
                resources,
            },
        );
        Ok(())
    }

    /// The pass that inverts `frame`, when a context is live and the frame
    /// is well formed. Its size is the frame's own.
    pub fn plan_invert(&self, frame: &TextureInfo) -> (r: Result<InvertPass, EngineError>)
        ensures
            r == Err::<InvertPass, EngineError>(EngineError::NotSetUp) <==> self@ is None,
            r == Err::<InvertPass, EngineError>(EngineError::InvalidFrame) <==> self@ is Some
                && !frame.wf(),
            r is Ok <==> self@ is Some && frame.wf(),
            r is Ok ==> r == Ok::<InvertPass, EngineError>(
                (InvertPass {
                    program: self@->Some_0.resources.invert.program,
                    texture: self@->Some_0.resources.texture1,
                    width: frame.width,
                    height: frame.height,
                }),
            ),
    {
        match self.session {
            None => Err(EngineError::NotSetUp),
            Some(s) => {
                if !frame.is_valid() {
                    return Err(EngineError::InvalidFrame);
                }
                Ok(
                    InvertPass {
                        program: s.resources.invert.program,
                        texture: s.resources.texture1,
                        width: frame.width,
                        height: frame.height,
                    },
                )
            },
        }
    }

    /// The pass that blends `frame1` and `frame2` into `target`, when a
    /// context is live, the three frames are well formed and they share
    /// their dimensions.
    pub fn plan_blend(&self, target: &TextureInfo, frame1: &TextureInfo, frame2: &TextureInfo) -> (r:
        Result<BlendPass, EngineError>)
        ensures
            r == Err::<BlendPass, EngineError>(EngineError::NotSetUp) <==> self@ is None,
            r == Err::<BlendPass, EngineError>(EngineError::InvalidFrame) <==> self@ is Some && !(
            target.wf() && frame1.wf() && frame2.wf()),
            r == Err::<BlendPass, EngineError>(EngineError::DimensionMismatch) <==> self@ is Some
                && target.wf() && frame1.wf() && frame2.wf() && !(frame1.same_dims(frame2)
                && target.same_dims(frame1)),
            r is Ok <==> self@ is Some && target.wf() && frame1.wf() && frame2.wf()
                && frame1.same_dims(frame2) && target.same_dims(frame1),
            r is Ok ==> r == Ok::<BlendPass, EngineError>(
                (BlendPass {
                    program: self@->Some_0.resources.blend.program,
                    first_texture: self@->Some_0.resources.texture1,
                    second_texture: self@->Some_0.resources.texture2,
                    width: target.width,
                    height: target.height,
                }),
            ),
    {
        match self.session {
            None => Err(EngineError::NotSetUp),
            Some(s) => {
                if !target.is_valid() || !frame1.is_valid() || !frame2.is_valid() {
                    return Err(EngineError::InvalidFrame);
                }
                if !frame1.has_same_dims(frame2) || !target.has_same_dims(frame1) {
                    return Err(EngineError::DimensionMismatch);
                }
                Ok(
                    BlendPass {
                        program: s.resources.blend.program,
                        first_texture: s.resources.texture1,
                        second_texture: s.resources.texture2,
                        width: target.width,
                        height: target.height,
                    },
                )
            },
        }
    }

    /// Ends the live context, if any, and hands back its resources for
    /// release. With no context it does nothing and returns `None`.
    pub fn teardown(&mut self) -> (r: Option<GpuResources>)
        ensures
            final(self)@ == after_teardown(old(self)@),
            r == released(old(self)@),
            final(self).wf(),
    {
        let r = match self.session {
            Some(s) => Some(s.resources),
            None => None,
        };
        self.session = None;
        r
    }
}

/// A location that the GL reports for a shader variable, or the error when
/// the variable was not found (the GL reports -1).
pub fn resolve_location(location: i32) -> (r: Result<u32, EngineError>)
    ensures
        r == Err::<u32, EngineError>(EngineError::MissingShaderVariable) <==> location < 0,
        r is Ok <==> location >= 0,
        r is Ok ==> r == Ok::<u32, EngineError>(location as u32),
{
    if location < 0 {
        Err(EngineError::MissingShaderVariable)
    } else {
        Ok(location as u32)
    }
}

} // verus!
