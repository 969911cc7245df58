use gl_effects::{
    blend_pixels, invert_pixels, resolve_location, BlendPass, Engine, EngineError, GpuResources,
    InvertPass, ProgramInfo, SurfaceRequest, TextureInfo, BLEND_SCALE,
};

fn solid(width: i32, height: i32, rgb: [u8; 3]) -> TextureInfo {
    let mut buffer = Vec::new();
    for _ in 0..(width * height) {
        buffer.extend_from_slice(&rgb);
    }
    TextureInfo { buffer, width, height }
}

fn resources() -> GpuResources {
    GpuResources {
        texture1: 1,
        texture2: 2,
        invert: ProgramInfo { program: 3, position_buffer: 4, texture_buffer: 5 },
        blend: ProgramInfo { program: 6, position_buffer: 7, texture_buffer: 8 },
    }
}

fn live_engine(width: i32, height: i32, weight: u16) -> Engine {
    let mut engine = Engine::new();
    let req = engine.check_setup(width, height, weight).unwrap();
    engine.complete_setup(req, resources()).unwrap();
    engine
}

#[test]
fn teardown_twice_is_teardown_once() {
    let mut engine = live_engine(4, 4, 128);
    assert_eq!(engine.teardown(), Some(resources()));
    assert!(!engine.is_set_up());
    assert_eq!(engine.teardown(), None);
    assert!(!engine.is_set_up());
    assert_eq!(engine.session(), None);
}

#[test]
fn teardown_without_setup_is_a_no_op() {
    let mut engine = Engine::new();
    assert_eq!(engine.teardown(), None);
    assert!(!engine.is_set_up());
}

#[test]
fn invert_keeps_dimensions() {
    let mut frame = solid(5, 3, [10, 20, 30]);
    invert_pixels(&mut frame).unwrap();
    assert_eq!(frame.width, 5);
    assert_eq!(frame.height, 3);
    assert_eq!(frame.buffer.len(), 45);
    let engine = live_engine(5, 3, 0);
    let pass = engine.plan_invert(&frame).unwrap();
    assert_eq!(pass, InvertPass { program: 3, texture: 1, width: 5, height: 3 });
}

#[test]
fn invert_twice_restores_frame() {
    let buffer: Vec<u8> = (0..48u32).map(|i| (i * 37 % 256) as u8).collect();
    let before = buffer.clone();
    let mut frame = TextureInfo { buffer, width: 4, height: 4 };
    invert_pixels(&mut frame).unwrap();
    assert_ne!(frame.buffer, before);
    invert_pixels(&mut frame).unwrap();
    assert_eq!(frame.buffer, before);
}

#[test]
fn invert_single_channel_values() {
    let mut frame = TextureInfo { buffer: vec![0, 1, 255], width: 1, height: 1 };
    invert_pixels(&mut frame).unwrap();
    assert_eq!(frame.buffer, vec![255, 254, 0]);
}

#[test]
fn blend_at_half_weight_is_symmetric() {
    let a = TextureInfo { buffer: vec![0, 7, 200, 255, 100, 1], width: 2, height: 1 };
    let b = TextureInfo { buffer: vec![255, 8, 3, 0, 101, 2], width: 2, height: 1 };
    let mut t1 = solid(2, 1, [0, 0, 0]);
    let mut t2 = solid(2, 1, [0, 0, 0]);
    blend_pixels(&mut t1, &a, &b, 128).unwrap();
    blend_pixels(&mut t2, &b, &a, 128).unwrap();
    assert_eq!(t1.buffer, t2.buffer);
    assert_eq!(t1.buffer, vec![128, 8, 102, 128, 101, 2]);
}

#[test]
fn blend_weight_bounds_pick_one_frame() {
    let a = solid(3, 2, [12, 34, 56]);
    let b = solid(3, 2, [200, 150, 100]);
    let mut t = solid(3, 2, [0, 0, 0]);
    blend_pixels(&mut t, &a, &b, 0).unwrap();
    assert_eq!(t.buffer, a.buffer);
    blend_pixels(&mut t, &a, &b, BLEND_SCALE).unwrap();
    assert_eq!(t.buffer, b.buffer);
}

#[test]
fn blend_quarter_weight() {
    let a = TextureInfo { buffer: vec![0, 100, 255], width: 1, height: 1 };
    let b = TextureInfo { buffer: vec![255, 200, 0], width: 1, height: 1 };
    let mut t = solid(1, 1, [9, 9, 9]);
    blend_pixels(&mut t, &a, &b, 64).unwrap();
    // (0*192 + 255*64 + 128) / 256 = 64, (100*192 + 200*64 + 128) / 256 = 125,
    // (255*192 + 128) / 256 = 191
    assert_eq!(t.buffer, vec![64, 125, 191]);
}

#[test]
fn white_and_black_blend_to_mid_gray() {
    let mut engine = Engine::new();
    let req = engine.check_setup(64, 64, 128).unwrap();
    engine.complete_setup(req, resources()).unwrap();
    let a = solid(64, 64, [255, 255, 255]);
    let b = solid(64, 64, [0, 0, 0]);
    let mut target = solid(64, 64, [1, 2, 3]);
    let pass = engine.plan_blend(&target, &a, &b).unwrap();
    assert_eq!(
        pass,
        BlendPass { program: 6, first_texture: 1, second_texture: 2, width: 64, height: 64 }
    );
    let weight = engine.session().unwrap().blend_weight;
    blend_pixels(&mut target, &a, &b, weight).unwrap();
    assert_eq!(target.buffer.len(), 64 * 64 * 3);
    assert!(target.buffer.iter().all(|&c| c == 128));
    assert_eq!(engine.teardown(), Some(resources()));
}

#[test]
fn red_inverts_to_cyan() {
    let mut engine = Engine::new();
    let req = engine.check_setup(4, 4, 0).unwrap();
    engine.complete_setup(req, resources()).unwrap();
    let mut frame = solid(4, 4, [255, 0, 0]);
    engine.plan_invert(&frame).unwrap();
    invert_pixels(&mut frame).unwrap();
    assert_eq!(frame.buffer, solid(4, 4, [0, 255, 255]).buffer);
    engine.teardown();
}

#[test]
fn blend_of_different_sizes_is_refused() {
    let engine = live_engine(4, 4, 128);
    let a = solid(4, 4, [1, 1, 1]);
    let b = solid(2, 4, [2, 2, 2]);
    let mut target = solid(4, 4, [3, 3, 3]);
    assert_eq!(engine.plan_blend(&target, &a, &b), Err(EngineError::DimensionMismatch));
    assert_eq!(blend_pixels(&mut target, &a, &b, 128), Err(EngineError::DimensionMismatch));
    assert_eq!(target.buffer, solid(4, 4, [3, 3, 3]).buffer);
    let small_target = solid(2, 2, [0, 0, 0]);
    assert_eq!(engine.plan_blend(&small_target, &a, &a), Err(EngineError::DimensionMismatch));
}

#[test]
fn rendering_before_setup_is_refused() {
    let engine = Engine::new();
    let frame = solid(2, 2, [0, 0, 0]);
    assert_eq!(engine.plan_invert(&frame), Err(EngineError::NotSetUp));
    assert_eq!(engine.plan_blend(&frame, &frame, &frame), Err(EngineError::NotSetUp));
}

#[test]
fn rendering_after_teardown_is_refused() {
    let mut engine = live_engine(2, 2, 0);
    engine.teardown();
    let frame = solid(2, 2, [0, 0, 0]);
    assert_eq!(engine.plan_invert(&frame), Err(EngineError::NotSetUp));
}

#[test]
fn second_setup_is_refused() {
    let mut engine = live_engine(8, 8, 10);
    assert_eq!(engine.check_setup(8, 8, 10), Err(EngineError::AlreadySetUp));
    let req = SurfaceRequest { width: 2, height: 2, blend_weight: 0 };
    assert_eq!(engine.complete_setup(req, resources()), Err(EngineError::AlreadySetUp));
    let s = engine.session().unwrap();
    assert_eq!((s.width, s.height, s.blend_weight), (8, 8, 10));
}

#[test]
fn setup_rejects_bad_arguments() {
    let mut engine = Engine::new();
    assert_eq!(engine.check_setup(0, 4, 0), Err(EngineError::InvalidDimensions));
    assert_eq!(engine.check_setup(4, -1, 0), Err(EngineError::InvalidDimensions));
    assert_eq!(engine.check_setup(4, 4, 257), Err(EngineError::InvalidBlendFactor));
    assert_eq!(
        engine.check_setup(4, 4, 256),
        Ok(SurfaceRequest { width: 4, height: 4, blend_weight: 256 })
    );
    let bad = SurfaceRequest { width: 4, height: 4, blend_weight: 300 };
    assert_eq!(engine.complete_setup(bad, resources()), Err(EngineError::InvalidBlendFactor));
    let bad = SurfaceRequest { width: 0, height: 4, blend_weight: 0 };
    assert_eq!(engine.complete_setup(bad, resources()), Err(EngineError::InvalidDimensions));
    assert!(!engine.is_set_up());
}

#[test]
fn malformed_frames_are_refused() {
    let engine = live_engine(2, 2, 0);
    let short = TextureInfo { buffer: vec![0; 11], width: 2, height: 2 };
    let empty = TextureInfo { buffer: vec![], width: 0, height: 0 };
    assert!(!short.is_valid());
    assert!(!empty.is_valid());
    assert_eq!(engine.plan_invert(&short), Err(EngineError::InvalidFrame));
    let good = solid(2, 2, [0, 0, 0]);
    assert!(good.is_valid());
    assert_eq!(engine.plan_blend(&good, &short, &good), Err(EngineError::InvalidFrame));
    let mut frame = TextureInfo { buffer: vec![1, 2, 3, 4], width: 1, height: 1 };
    assert_eq!(invert_pixels(&mut frame), Err(EngineError::InvalidFrame));
    assert_eq!(frame.buffer, vec![1, 2, 3, 4]);
    let mut t = solid(2, 2, [0, 0, 0]);
    assert_eq!(blend_pixels(&mut t, &good, &good, 257), Err(EngineError::InvalidBlendFactor));
}

#[test]
fn missing_shader_variable_is_reported() {
    assert_eq!(resolve_location(-1), Err(EngineError::MissingShaderVariable));
    assert_eq!(resolve_location(0), Ok(0));
    assert_eq!(resolve_location(7), Ok(7));
}
