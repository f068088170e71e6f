use vstd::prelude::*;

use crate::capture::{arbitrate, ctxs_view, spec_arbitrate, CaptureContext};
use crate::handler::{Grabbed, Grabble, GrabbleV, spec_parent, spec_world};
use crate::input::{
    gesture_active, methods_view, spec_gesture_active, spec_scroll, InputData,
    InputMethod, MethodV, SCROLL_DEPTH_STEP,
};
use crate::math::{v3_add, v3_sub, Vec3, V3};

verus! {

/// The input method a stored identity resolves to, scanning from `i`: the
/// first method carrying that identity, or nothing when the method has
/// disappeared from the frame's snapshot.
pub open spec fn spec_resolve_from(ms: Seq<MethodV>, id: int, i: int) -> Option<MethodV>
    decreases ms.len() - i,
{
    if i < 0 || i >= ms.len() {
        None
    } else if ms[i].id == id {
        Some(ms[i])
    } else {
        spec_resolve_from(ms, id, i + 1)
    }
}

/// The input method a stored identity resolves to in this frame's snapshot.
pub open spec fn spec_resolve(ms: Seq<MethodV>, id: int) -> Option<MethodV> {
    spec_resolve_from(ms, id, 0)
}

/// One frame of the grab state machine and transform updater for one
/// handler.
///
/// A handler owned by no method is untouched. If the owner no longer
/// resolves, ownership and any grab offset are cleared unconditionally.
/// Otherwise the owner's base-threshold gesture decides: while it is
/// inactive a grabbed handler releases, clearing ownership and offset, and
/// an idle handler stays as it is; while it is active the handler is
/// Grabbed. On the grab frame itself the offset is recorded as exactly the
/// owner's pose inverted and composed with the handler's world pose; on a
/// frame where the handler was already Grabbed, the cached offset is kept
/// and only shifted along the depth axis by the owner's scroll delta. The
/// local transform is then recomputed as the parent's world transform
/// inverted and composed with the owner's pose composed with the offset.
pub open spec fn spec_update_grabble(g: GrabbleV, ms: Seq<MethodV>) -> GrabbleV {
    match g.captured {
        None => g,
        Some(id) => match spec_resolve(ms, id) {
            None => GrabbleV { captured: None, grabbed: None, ..g },
            Some(m) => {
                let grabbing = spec_gesture_active(m.data);
                if !grabbing {
                    if g.grabbed is Some {
                        GrabbleV { captured: None, grabbed: None, ..g }
                    } else {
                        g
                    }
                } else {
                    let off = match g.grabbed {
                        Some(held) => V3 {
                            x: held.x,
                            y: held.y,
                            z: held.z + spec_scroll(m.data) * (SCROLL_DEPTH_STEP as int),
                        },
                        None => v3_sub(spec_world(g), m.pose),
                    };
                    GrabbleV {
                        local: v3_sub(v3_add(m.pose, off), spec_parent(g)),
                        parent_world: g.parent_world,
                        captured: g.captured,
                        grabbed: Some(off),
                    }
                }
            },
        },
    }
}

/// Finds the method carrying `id` in this frame's snapshot.
fn resolve_method(methods: &Vec<InputMethod>, id: u64) -> (r: Option<InputMethod>)
    requires
        forall|i: int| 0 <= i < methods@.len() ==> (#[trigger] methods@[i]).wf(),
    ensures
        match r {
            Some(m) => spec_resolve(methods_view(methods@), id as int) == Some(m@) && m.wf(),
            None => spec_resolve(methods_view(methods@), id as int) is None,
        },
{
    let ghost mv = methods_view(methods@);
    let mut i: usize = 0;
    while i < methods.len()
        invariant
            mv == methods_view(methods@),
            i <= methods@.len(),
            forall|j: int| 0 <= j < methods@.len() ==> (#[trigger] methods@[j]).wf(),
            spec_resolve_from(mv, id as int, 0) == spec_resolve_from(mv, id as int, i as int),
        decreases methods@.len() - i,
    {
        proof {
            assert(mv[i as int] == methods@[i as int]@);
        }
        if methods[i].id == id {
            return Some(methods[i]);
        }
        i = i + 1;
    }
    None
}

/// One frame for one handler: resolves the owner, evaluates the grab
/// gesture, transitions the state machine, applies the scroll depth
/// adjustment and recomputes the local transform while Grabbed.
pub fn update_grabble(handler: &mut Grabble, methods: &Vec<InputMethod>)
    requires
        old(handler).wf(),
        forall|i: int| 0 <= i < methods@.len() ==> (#[trigger] methods@[i]).wf(),
    ensures
        final(handler)@ == spec_update_grabble(old(handler)@, methods_view(methods@)),
        old(handler).headroom() ==> final(handler).wf(),
{
    let id: u64 = match handler.captured {
        Some(id) => id,
        None => {
            return;
        },
    };
    let m: InputMethod = match resolve_method(methods, id) {
        Some(m) => m,
        None => {
            handler.captured = None;
            handler.grabbed = None;
            return;
        },
    };
    let grabbing = gesture_active(&m.data);
    if !grabbing {
        if handler.grabbed.is_some() {
            handler.captured = None;
            handler.grabbed = None;
        }
        return;
    }
    let parent: Vec3 = match handler.parent_world {
        Some(p) => p,
        None => Vec3 { x: 0, y: 0, z: 0 },
    };
    let scroll: i64 = match m.data {
        InputData::Pointer(Some(mo)) => mo.scroll_y,
        _ => 0,
    };
    let off: Vec3 = match handler.grabbed {
        Some(o) => Vec3 { x: o.0.x, y: o.0.y, z: o.0.z + scroll * SCROLL_DEPTH_STEP },
        None => parent.add(handler.local).sub(m.pose),
    };
    handler.local = m.pose.add(off).sub(parent);
    handler.grabbed = Some(Grabbed(off));
}

/// One frame over the whole handler set: the per-frame routine the host
/// invokes after the arbitration pass has committed capture ownership, so
/// that ownership is settled globally before any transition commits.
pub fn move_grabble(grabbles: &mut Vec<Grabble>, methods: &Vec<InputMethod>)
    requires
        forall|i: int| 0 <= i < old(grabbles)@.len() ==> (#[trigger] old(grabbles)@[i]).wf(),
        forall|i: int| 0 <= i < methods@.len() ==> (#[trigger] methods@[i]).wf(),
    ensures
        final(grabbles)@.len() == old(grabbles)@.len(),
        forall|i: int| 0 <= i < old(grabbles)@.len() ==> (#[trigger] final(grabbles)@[i])@
            == spec_update_grabble(old(grabbles)@[i]@, methods_view(methods@)),
        forall|i: int| 0 <= i < old(grabbles)@.len() ==> (old(grabbles)@[i].headroom()
            ==> (#[trigger] final(grabbles)@[i]).wf()),
{
    let mut updated: Vec<Grabble> = Vec::new();
    let mut i: usize = 0;
    while i < grabbles.len()
        invariant
            grabbles@ == old(grabbles)@,
            i <= grabbles@.len(),
            updated@.len() == i,
            forall|j: int| 0 <= j < grabbles@.len() ==> (#[trigger] grabbles@[j]).wf(),
            forall|j: int| 0 <= j < methods@.len() ==> (#[trigger] methods@[j]).wf(),
            forall|j: int| 0 <= j < i ==> (#[trigger] updated@[j])@
                == spec_update_grabble(grabbles@[j]@, methods_view(methods@)),
            forall|j: int| 0 <= j < i ==> (grabbles@[j].headroom()
                ==> (#[trigger] updated@[j]).wf()),
        decreases grabbles@.len() - i,
    {
        let mut g: Grabble = grabbles[i];
        update_grabble(&mut g, methods);
        updated.push(g);
        i = i + 1;
    }
    *grabbles = updated;
}

/// One whole frame: first the arbitration pass settles capture ownership
/// for every handler against every candidate method, and only then does
/// the state machine commit transitions and transforms. A handler can
/// therefore never observe two arbitration winners within one frame, even
/// transiently. `ctxs[i][j]` carries the geometry of handler `i` against
/// method `j`.
pub fn run_frame(
    grabbles: &mut Vec<Grabble>,
    methods: &Vec<InputMethod>,
    ctxs: &Vec<Vec<CaptureContext>>,
)
    requires
        old(grabbles)@.len() == ctxs@.len(),
        forall|i: int| 0 <= i < old(grabbles)@.len() ==> (#[trigger] old(grabbles)@[i]).wf(),
        forall|i: int| 0 <= i < methods@.len() ==> (#[trigger] methods@[i]).wf(),
        forall|i: int| 0 <= i < ctxs@.len() ==> (#[trigger] ctxs@[i])@.len() == methods@.len(),
        forall|i: int, j: int| 0 <= i < ctxs@.len() && 0 <= j < ctxs@[i]@.len()
            ==> (#[trigger] ctxs@[i]@[j]).wf(),
    ensures
        final(grabbles)@.len() == old(grabbles)@.len(),
        forall|i: int| 0 <= i < old(grabbles)@.len() ==> (#[trigger] final(grabbles)@[i])@
            == spec_update_grabble(
                spec_arbitrate(old(grabbles)@[i]@, ctxs_view(ctxs@[i]@), methods_view(methods@)),
                methods_view(methods@),
            ),
        forall|i: int| 0 <= i < old(grabbles)@.len() ==> (old(grabbles)@[i].headroom()
            ==> (#[trigger] final(grabbles)@[i]).wf()),
{
    let mut arbitrated: Vec<Grabble> = Vec::new();
    let mut i: usize = 0;
    while i < grabbles.len()
        invariant
            grabbles@ == old(grabbles)@,
            grabbles@.len() == ctxs@.len(),
            i <= grabbles@.len(),
            arbitrated@.len() == i,
            forall|j: int| 0 <= j < grabbles@.len() ==> (#[trigger] grabbles@[j]).wf(),
            forall|j: int| 0 <= j < methods@.len() ==> (#[trigger] methods@[j]).wf(),
            forall|j: int| 0 <= j < ctxs@.len() ==> (#[trigger] ctxs@[j])@.len() == methods@.len(),
            forall|j: int, k: int| 0 <= j < ctxs@.len() && 0 <= k < ctxs@[j]@.len()
                ==> (#[trigger] ctxs@[j]@[k]).wf(),
            forall|j: int| 0 <= j < i ==> (#[trigger] arbitrated@[j])@
                == spec_arbitrate(grabbles@[j]@, ctxs_view(ctxs@[j]@), methods_view(methods@)),
            forall|j: int| 0 <= j < i ==> (#[trigger] arbitrated@[j]).wf(),
            forall|j: int| 0 <= j < i ==> (grabbles@[j].headroom()
                ==> (#[trigger] arbitrated@[j]).headroom()),
        decreases grabbles@.len() - i,
    {
        let mut g: Grabble = grabbles[i];
        arbitrate(&mut g, methods, &ctxs[i]);
        arbitrated.push(g);
        i = i + 1;
    }
    *grabbles = arbitrated;
    move_grabble(grabbles, methods);
}

} // verus!
