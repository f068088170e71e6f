use vstd::prelude::*;

use crate::capture::{spec_arbitrate, spec_capture_condition, spec_first_winner_from, ContextV,
    CAPTURE_DISTANCE_SQ};
use crate::grab::{spec_resolve, spec_update_grabble};
use crate::handler::GrabbleV;
use crate::input::{spec_gesture_active, spec_scroll, InputDataV, MethodV, MouseV, SCROLL_DEPTH_STEP};
use crate::math::{dist_sq, V3};

verus! {

/// Single ownership, first half: the capture decision refuses every
/// candidate while the handler's ownership record already holds a method,
/// so a second owner can never be granted while one is held.
pub proof fn lemma_capture_refused_while_held(ctx: ContextV, m: MethodV, captured: Option<int>)
    requires
        captured is Some,
    ensures
        !spec_capture_condition(ctx, m, captured),
{
}

/// Single ownership, second half: one arbitration pass commits at most the
/// single first winner, leaves a held handler's owner unchanged, and never
/// touches transform or grab state; together with the single optional
/// ownership slot, a handler records zero or one captured methods, never
/// more.
pub proof fn lemma_single_owner(g: GrabbleV, ctxs: Seq<ContextV>, ms: Seq<MethodV>)
    ensures
        g.captured is Some ==> spec_arbitrate(g, ctxs, ms) == g,
        spec_arbitrate(g, ctxs, ms).local == g.local,
        spec_arbitrate(g, ctxs, ms).parent_world == g.parent_world,
        spec_arbitrate(g, ctxs, ms).grabbed == g.grabbed,
{
    if g.captured is Some {
        lemma_no_winner_while_held(g.captured, ctxs, ms, 0);
    }
}

proof fn lemma_no_winner_while_held(captured: Option<int>, ctxs: Seq<ContextV>, ms: Seq<MethodV>, i: int)
    requires
        captured is Some,
    ensures
        spec_first_winner_from(ctxs, ms, captured, i) is None,
    decreases ms.len() - i,
{
    if 0 <= i < ms.len() && ctxs.len() == ms.len() {
        lemma_no_winner_while_held(captured, ctxs, ms, i + 1);
    }
}

/// The frame update never grants ownership: only the arbitration pass
/// writes a new owner, so within a frame ownership is settled before any
/// state transition reads it.
pub proof fn lemma_update_never_captures(g: GrabbleV, ms: Seq<MethodV>)
    ensures
        spec_update_grabble(g, ms).captured is Some ==> g.captured is Some,
        spec_update_grabble(g, ms).captured matches Some(id) ==> g.captured == Some(id),
{
}

/// Proximity alone never captures: whenever the arbitrator grants a
/// capture, the winning method's base-threshold gesture is active, with
/// the single exception of a bare ray pointer, which has no gesture
/// channel and takes the distance-free fallback path.
pub proof fn lemma_capture_requires_gesture(ctx: ContextV, m: MethodV, captured: Option<int>)
    requires
        spec_capture_condition(ctx, m, captured),
    ensures
        spec_gesture_active(m.data) || m.data matches InputDataV::Pointer(None),
{
}

/// An idle handler transitions to Grabbed only on a frame where its owning
/// method resolves and that method's base-threshold gesture test (pinch,
/// squeeze or button) is true; proximity alone never starts a grab.
pub proof fn lemma_grab_requires_gesture(g: GrabbleV, ms: Seq<MethodV>)
    requires
        g.grabbed is None,
        spec_update_grabble(g, ms).grabbed is Some,
    ensures
        g.captured matches Some(id) && spec_resolve(ms, id) matches Some(m)
            && spec_gesture_active(m.data),
{
}

/// Offset stability: while Grabbed under a stationary owner that scrolls
/// nothing, re-running the frame update changes nothing — the offset is
/// fixed at grab time and the recomputed transform repeats exactly.
pub proof fn lemma_offset_stability(g: GrabbleV, ms: Seq<MethodV>)
    requires
        g.captured matches Some(id),
        g.captured matches Some(id) ==> spec_resolve(ms, id) matches Some(m)
            && spec_gesture_active(m.data) && spec_scroll(m.data) == 0,
    ensures
        spec_update_grabble(g, ms).grabbed is Some,
        spec_update_grabble(spec_update_grabble(g, ms), ms) == spec_update_grabble(g, ms),
{
    let g1 = spec_update_grabble(g, ms);
    let g2 = spec_update_grabble(g1, ms);
    assert(g2.grabbed == g1.grabbed);
    assert(g2.local == g1.local);
    assert(g2 == g1);
}

/// Release on gesture end: once the owning method's gesture goes inactive,
/// a grabbed handler returns to Idle on the next evaluation and its
/// ownership record is cleared along with the offset.
pub proof fn lemma_release_on_gesture_end(g: GrabbleV, ms: Seq<MethodV>)
    requires
        g.grabbed is Some,
        g.captured matches Some(id),
        g.captured matches Some(id) ==> spec_resolve(ms, id) matches Some(m)
            && !spec_gesture_active(m.data),
    ensures
        spec_update_grabble(g, ms).grabbed is None,
        spec_update_grabble(g, ms).captured is None,
{
}

/// Scroll adjusts depth only while Grabbed: each frame the handler stays
/// Grabbed, the owner's scroll delta shifts the cached offset's depth
/// coordinate by a tenth of a metre per tick and leaves the other two
/// coordinates alone; a handler that stays Idle is not changed at all.
pub proof fn lemma_scroll_depth(g: GrabbleV, ms: Seq<MethodV>)
    requires
        g.captured matches Some(id),
        g.captured matches Some(id) ==> spec_resolve(ms, id) matches Some(m)
            && spec_gesture_active(m.data),
    ensures
        g.grabbed matches Some(off) ==> g.captured matches Some(id)
            && spec_resolve(ms, id) matches Some(m)
            && spec_update_grabble(g, ms).grabbed == Some(V3 {
                x: off.x,
                y: off.y,
                z: off.z + spec_scroll(m.data) * (SCROLL_DEPTH_STEP as int),
            }),
{
}

/// The other half of the scroll law: a handler whose owner is not
/// gesturing and that holds no offset stays exactly as it is, whatever
/// scroll delta the owner carries.
pub proof fn lemma_scroll_ignored_while_idle(g: GrabbleV, ms: Seq<MethodV>)
    requires
        g.grabbed is None,
        g.captured matches Some(id) ==> spec_resolve(ms, id) matches Some(m)
            && !spec_gesture_active(m.data),
    ensures
        spec_update_grabble(g, ms) == g,
{
}

/// Pointer fallback: a mouse-backed pointer outside every proximity
/// threshold captures exactly when its left button is pressed, and a bare
/// ray pointer there captures unconditionally.
pub proof fn lemma_pointer_fallback(ctx: ContextV, id: int, pose: V3, mouse: Option<MouseV>)
    requires
        dist_sq(ctx.closest_point, ctx.pointer_location) > CAPTURE_DISTANCE_SQ as int,
    ensures
        mouse matches Some(mo) ==> spec_capture_condition(
            ctx,
            MethodV { id, pose, data: InputDataV::Pointer(mouse) },
            None,
        ) == mo.left_pressed,
        mouse is None ==> spec_capture_condition(
            ctx,
            MethodV { id, pose, data: InputDataV::Pointer(mouse) },
            None,
        ),
{
}

} // verus!
