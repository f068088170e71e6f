use vstd::prelude::*;

use crate::handler::{Grabble, GrabbleV};
use crate::input::{
    finger_separation, gesture_active, methods_view, spec_finger_separation,
    spec_gesture_active, InputData, InputDataV, InputMethod, MethodV,
    EXTENDED_GRAB_SEPARATION,
};
use crate::math::{dist_sq, distance_sq, v3_bounded, Vec3, V3, POS_LIMIT};

verus! {

/// Square of the base proximity threshold under which nearness alone makes
/// a method eligible to capture: one millimetre, that is a thousand
/// micrometres, squared.
pub const CAPTURE_DISTANCE_SQ: i128 = 1_000_000;

/// Square of the range within which a pinching hand may capture without
/// meeting the base proximity threshold: a tenth of a metre, that is a
/// hundred thousand micrometres, squared.
pub const HAND_RANGE_SQ: i128 = 10_000_000_000;

/// The per-evaluation value handed to the arbitrator for one
/// (handler, input method) pair: the closest point on the handler's spatial
/// field to the method's pointer location, and that pointer location, both
/// in world space. The field geometry itself stays with the collaborator
/// that computes the closest point.
#[derive(Clone, Copy, Debug, PartialEq, Eq)]
pub struct CaptureContext {
    pub closest_point: Vec3,
    pub pointer_location: Vec3,
}

/// Model of a capture context.
pub struct ContextV {
    pub closest_point: V3,
    pub pointer_location: V3,
}

impl View for CaptureContext {
    type V = ContextV;

    open spec fn view(&self) -> ContextV {
        ContextV { closest_point: self.closest_point@, pointer_location: self.pointer_location@ }
    }
}

impl CaptureContext {
    pub open spec fn wf(self) -> bool {
        &&& v3_bounded(self@.closest_point, POS_LIMIT as int)
        &&& v3_bounded(self@.pointer_location, POS_LIMIT as int)
    }

    /// Verified range check over both points of the context.
    pub fn is_well_formed(&self) -> (r: bool)
        ensures
            r == self.wf(),
    {
        self.closest_point.within(POS_LIMIT) && self.pointer_location.within(POS_LIMIT)
    }
}

pub open spec fn ctxs_view(s: Seq<CaptureContext>) -> Seq<ContextV> {
    s.map_values(|c: CaptureContext| c@)
}

/// The capture decision for one (handler, input method) pair.
///
/// A handler that already records a captured method refuses at once: the
/// single-owner rule. Otherwise nearness within the base threshold, or a
/// hand pinching at the widened allowance within hand range, makes the
/// method eligible, and an eligible method captures exactly when its
/// base-threshold gesture is active. An ineligible ray pointer falls back
/// to a distance-free path: it captures on its left button when it is
/// mouse-backed, and unconditionally when it is a bare ray.
pub open spec fn spec_capture_condition(ctx: ContextV, m: MethodV, captured: Option<int>) -> bool {
    if captured is Some {
        false
    } else {
        let d2 = dist_sq(ctx.closest_point, ctx.pointer_location);
        let near = d2 <= CAPTURE_DISTANCE_SQ as int;
        let pinch_reach = m.data matches InputDataV::Hand(h)
            && d2 < HAND_RANGE_SQ as int
            && spec_finger_separation(h, EXTENDED_GRAB_SEPARATION as int);
        if near || pinch_reach {
            spec_gesture_active(m.data)
        } else {
            match m.data {
                InputDataV::Pointer(mouse) => match mouse {
                    Some(mo) => mo.left_pressed,
                    None => true,
                },
                _ => false,
            }
        }
    }
}

/// Decides whether `method` should begin controlling the handler, given
/// the geometry in `ctx` and the handler's current ownership record.
pub fn capture_condition(ctx: &CaptureContext, method: &InputMethod, handler: &Grabble) -> (r: bool)
    requires
        ctx.wf(),
        method.wf(),
    ensures
        r == spec_capture_condition(ctx@, method@, handler@.captured),
{
    if handler.captured.is_some() {
        return false;
    }
    let d2: i128 = distance_sq(ctx.closest_point, ctx.pointer_location);
    let mut capture: bool = d2 <= CAPTURE_DISTANCE_SQ;
    if let InputData::Hand(h) = &method.data {
        if d2 < HAND_RANGE_SQ {
            if finger_separation(h, EXTENDED_GRAB_SEPARATION) {
                capture = true;
            }
        }
    }
    if capture {
        return gesture_active(&method.data);
    }
    if let InputData::Pointer(mouse) = &method.data {
        return match mouse {
            Some(m) => m.left_pressed,
            None => true,
        };
    }
    false
}

/// Index of the first (context, method) pair, scanning from `i`, whose
/// capture decision is positive.
pub open spec fn spec_first_winner_from(
    ctxs: Seq<ContextV>,
    ms: Seq<MethodV>,
    captured: Option<int>,
    i: int,
) -> Option<int>
    decreases ms.len() - i,
{
    if i < 0 || i >= ms.len() || ctxs.len() != ms.len() {
        None
    } else if spec_capture_condition(ctxs[i], ms[i], captured) {
        Some(i)
    } else {
        spec_first_winner_from(ctxs, ms, captured, i + 1)
    }
}

/// One arbitration pass for one handler: the ownership record after every
/// candidate method has been evaluated. At most one winner exists per pass,
/// and a held handler keeps its owner unchanged.
pub open spec fn spec_arbitrate(g: GrabbleV, ctxs: Seq<ContextV>, ms: Seq<MethodV>) -> GrabbleV {
    match spec_first_winner_from(ctxs, ms, g.captured, 0) {
        Some(w) => GrabbleV { captured: Some(ms[w].id), ..g },
        None => g,
    }
}

/// Runs the arbitration pass for one handler over the frame's candidate
/// methods, in order, and commits the first winner as the capture owner.
/// `ctxs[i]` carries the geometry for `methods[i]` against this handler.
pub fn arbitrate(handler: &mut Grabble, methods: &Vec<InputMethod>, ctxs: &Vec<CaptureContext>)
    requires
        old(handler).wf(),
        methods@.len() == ctxs@.len(),
        forall|i: int| 0 <= i < methods@.len() ==> (#[trigger] methods@[i]).wf(),
        forall|i: int| 0 <= i < ctxs@.len() ==> (#[trigger] ctxs@[i]).wf(),
    ensures
        final(handler)@ == spec_arbitrate(old(handler)@, ctxs_view(ctxs@), methods_view(methods@)),
        final(handler).local == old(handler).local,
        final(handler).parent_world == old(handler).parent_world,
        final(handler).grabbed == old(handler).grabbed,
        final(handler).wf(),
        old(handler).headroom() ==> final(handler).headroom(),
{
    let ghost cv = ctxs_view(ctxs@);
    let ghost mv = methods_view(methods@);
    let mut winner: Option<usize> = None;
    let mut i: usize = 0;
    while i < methods.len()
        invariant
            *handler == *old(handler),
            handler.wf(),
            methods@.len() == ctxs@.len(),
            cv == ctxs_view(ctxs@),
            mv == methods_view(methods@),
            i <= methods@.len(),
            forall|j: int| 0 <= j < methods@.len() ==> (#[trigger] methods@[j]).wf(),
            forall|j: int| 0 <= j < ctxs@.len() ==> (#[trigger] ctxs@[j]).wf(),
            winner is None ==> spec_first_winner_from(cv, mv, handler@.captured, 0)
                == spec_first_winner_from(cv, mv, handler@.captured, i as int),
            winner matches Some(w) ==> w < methods@.len()
                && spec_first_winner_from(cv, mv, handler@.captured, 0) == Some(w as int),
        decreases methods@.len() - i,
    {
        proof {
            assert(cv[i as int] == ctxs@[i as int]@);
            assert(mv[i as int] == methods@[i as int]@);
        }
        if winner.is_none() && capture_condition(&ctxs[i], &methods[i], handler) {
            winner = Some(i);
        }
        i = i + 1;
    }
    match winner {
        Some(w) => {
            handler.captured = Some(methods[w].id);
            proof {
                assert(mv[w as int] == methods@[w as int]@);
            }
        },
        None => {
            proof {
                assert(spec_first_winner_from(cv, mv, handler@.captured, 0) is None);
            }
        },
    }
}

} // verus!
