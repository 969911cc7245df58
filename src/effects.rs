//! What the two passes compute, pixel channel by pixel channel.
use vstd::prelude::*;
use crate::error::EngineError;
use crate::frame::TextureInfo;

verus! {

/// The blend weight is counted in steps of `1 / BLEND_SCALE`: weight 0 keeps
/// the first frame, weight `BLEND_SCALE` gives the second.
pub const BLEND_SCALE: u16 = 256;

/// The complement of one 8-bit channel.
pub open spec fn invert_channel(c: u8) -> u8 {
    (255 - c) as u8
}

/// Every channel of `s` complemented.
pub open spec fn inverted(s: Seq<u8>) -> Seq<u8> {
    Seq::new(s.len(), |i: int| invert_channel(s[i]))
}

/// The linear mix of two channels at weight `w / BLEND_SCALE`, rounded to the
/// nearest value, halves upward.
pub open spec fn blend_channel(a: u8, b: u8, w: int) -> u8 {
    ((a * (256 - w) + b * w + 128) / 256) as u8
}

/// Channel by channel, the mix of `a` and `b` at weight `w / BLEND_SCALE`.
pub open spec fn blended(a: Seq<u8>, b: Seq<u8>, w: int) -> Seq<u8> {
    Seq::new(a.len(), |i: int| blend_channel(a[i], b[i], w))
}

/// Inverting twice gives back the same channels, byte for byte.
pub proof fn lemma_invert_twice(s: Seq<u8>)
    ensures
        inverted(inverted(s)) == s,
{
    assert(inverted(inverted(s)) =~= s);
}

/// At half weight the order of the two frames does not matter.
pub proof fn lemma_blend_half_symmetric(a: Seq<u8>, b: Seq<u8>)
    requires
        a.len() == b.len(),
    ensures
        blended(a, b, 128) == blended(b, a, 128),
{
    assert(blended(a, b, 128) =~= blended(b, a, 128));
}

/// Weight 0 yields the first frame and full weight the second.
pub proof fn lemma_blend_bounds(a: Seq<u8>, b: Seq<u8>)
    requires
        a.len() == b.len(),
    ensures
        blended(a, b, 0) == a,
        blended(a, b, BLEND_SCALE as int) == b,
{
    assert forall|i: int| 0 <= i < a.len() implies blend_channel(a[i], b[i], 0) == a[i]
        && blend_channel(a[i], b[i], 256) == b[i] by {
        let x = a[i] as int;
        let y = b[i] as int;
        assert((x * 256 + y * 0 + 128) / 256 == x) by (nonlinear_arith)
            requires
                0 <= x <= 255,
        ;
        assert((x * 0 + y * 256 + 128) / 256 == y) by (nonlinear_arith)
            requires
                0 <= y <= 255,
        ;
    }
    assert(blended(a, b, 0) =~= a);
    assert(blended(a, b, 256) =~= b);
}

/// Inverts every channel of `frame` in place, as the invert pass does.
pub fn invert_pixels(frame: &mut TextureInfo) -> (r: Result<(), EngineError>)
    ensures
        final(frame).width == old(frame).width,
        final(frame).height == old(frame).height,
        r is Err <==> !old(frame).wf(),
        r is Err ==> r == Err::<(), EngineError>(EngineError::InvalidFrame)
            && final(frame).buffer@ == old(frame).buffer@,
        r is Ok ==> final(frame).buffer@ == inverted(old(frame).buffer@),
{
    if !frame.is_valid() {
        return Err(EngineError::InvalidFrame);
    }
    let n = frame.buffer.len();
    let mut i: usize = 0;
    while i < n
        invariant
            n == frame.buffer@.len(),
            n == old(frame).buffer@.len(),
            frame.width == old(frame).width,
            frame.height == old(frame).height,
            i <= n,
            forall|j: int| 0 <= j < i ==> frame.buffer@[j] == invert_channel(old(frame).buffer@[j]),
            forall|j: int| i <= j < n ==> frame.buffer@[j] == old(frame).buffer@[j],
        decreases n - i,
    {
        let c = frame.buffer[i];
        frame.buffer.set(i, 255 - c);
        i += 1;
    }
    assert(frame.buffer@ =~= inverted(old(frame).buffer@));
    Ok(())
}

/// Fills `target` with the mix of `frame1` and `frame2` at weight
/// `weight / BLEND_SCALE`, as the blend pass does.
pub fn blend_pixels(
    target: &mut TextureInfo,
    frame1: &TextureInfo,
    frame2: &TextureInfo,
    weight: u16,
) -> (r: Result<(), EngineError>)
    ensures
        final(target).width == old(target).width,
        final(target).height == old(target).height,
        r == Err::<(), EngineError>(EngineError::InvalidFrame) <==> !(old(target).wf()
            && frame1.wf() && frame2.wf()),
        r == Err::<(), EngineError>(EngineError::DimensionMismatch) <==> old(target).wf()
            && frame1.wf() && frame2.wf() && !(frame1.same_dims(frame2) && old(
            target,
        ).same_dims(frame1)),
        r == Err::<(), EngineError>(EngineError::InvalidBlendFactor) <==> old(target).wf()
            && frame1.wf() && frame2.wf() && frame1.same_dims(frame2) && old(target).same_dims(
            frame1,
        ) && weight > BLEND_SCALE,
        r is Ok <==> old(target).wf() && frame1.wf() && frame2.wf() && frame1.same_dims(frame2)
            && old(target).same_dims(frame1) && weight <= BLEND_SCALE,
        r is Err ==> final(target).buffer@ == old(target).buffer@,
        r is Ok ==> final(target).buffer@ == blended(frame1.buffer@, frame2.buffer@, weight as int),
{
    if !target.is_valid() || !frame1.is_valid() || !frame2.is_valid() {
        return Err(EngineError::InvalidFrame);
    }
    if !frame1.has_same_dims(frame2) || !target.has_same_dims(frame1) {
        return Err(EngineError::DimensionMismatch);
    }
    if weight > BLEND_SCALE {
        return Err(EngineError::InvalidBlendFactor);
    }
    let n = frame1.buffer.len();
    let w = weight as u32;
    let mut out: Vec<u8> = Vec::with_capacity(n);
    let mut i: usize = 0;
    while i < n
        invariant
            n == frame1.buffer@.len(),
            n == frame2.buffer@.len(),
            w <= 256,
            i <= n,
            out@.len() == i,
            forall|j: int| 0 <= j < i ==> out@[j] == blend_channel(frame1.buffer@[j], frame2.buffer@[j], w as int),
        decreases n - i,
    {
        let a = frame1.buffer[i] as u32;
        let b = frame2.buffer[i] as u32;
        assert(a * (256 - w) + b * w <= 255 * 256) by (nonlinear_arith)
            requires
                a <= 255,
                b <= 255,
                w <= 256,
        ;
        let mixed = (a * (256 - w) + b * w + 128) / 256;
        out.push(mixed as u8);
        i += 1;
    }
    assert(out@ =~= blended(frame1.buffer@, frame2.buffer@, weight as int));
    target.buffer = out;
    Ok(())
}

} // verus!
