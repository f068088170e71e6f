use vstd::prelude::*;

use crate::math::{v3_add, v3_bounded, v3_zero, Vec3, V3, POS_LIMIT, STATE_LIMIT};

verus! {

/// Stored-state bound that leaves one frame of headroom below
/// STATE_LIMIT. One frame of update arithmetic over well-formed inputs
/// grows a coordinate by at most a few multiples of POS_LIMIT plus the
/// largest scroll shift, which the ten-million-metre margin absorbs: a
/// handler within headroom is well-formed again
/// after the frame, so a host may loop frames on the contracts alone,
/// re-checking headroom as it goes.
pub const STATE_HEADROOM: i64 = 999_990_000_000_000_000;

/// The offset recorded at grab time: the controlling method's world pose
/// inverted and composed with the handler's world pose. It stays fixed for
/// the whole grab, so the handler moves rigidly with the method instead of
/// drifting from a re-derived offset.
#[derive(Clone, Copy, Debug, PartialEq, Eq)]
pub struct Grabbed(pub Vec3);

/// A capturable object: its local transform, its parent's world transform
/// for the current frame (`None` for a root object), the capture-ownership
/// record, and the grab state. Ownership is a single optional slot, so a
/// handler can never record two captured methods.
#[derive(Clone, Copy, Debug, PartialEq)]
pub struct Grabble {
    pub local: Vec3,
    pub parent_world: Option<Vec3>,
    pub captured: Option<u64>,
    pub grabbed: Option<Grabbed>,
}

/// Model of a capturable object.
pub struct GrabbleV {
    pub local: V3,
    pub parent_world: Option<V3>,
    pub captured: Option<int>,
    pub grabbed: Option<V3>,
}

impl View for Grabble {
    type V = GrabbleV;

    open spec fn view(&self) -> GrabbleV {
        GrabbleV {
            local: self.local@,
            parent_world: match self.parent_world {
                Some(p) => Some(p@),
                None => None,
            },
            captured: match self.captured {
                Some(id) => Some(id as int),
                None => None,
            },
            grabbed: match self.grabbed {
                Some(o) => Some(o.0@),
                None => None,
            },
        }
    }
}

/// The parent's world transform, the identity for a root object.
pub open spec fn spec_parent(g: GrabbleV) -> V3 {
    match g.parent_world {
        Some(p) => p,
        None => v3_zero(),
    }
}

/// The handler's world transform: its parent's world transform composed
/// with its local transform.
pub open spec fn spec_world(g: GrabbleV) -> V3 {
    v3_add(spec_parent(g), g.local)
}

impl Grabble {
    /// Well-formed state: coordinates within the fixed-point range, and a
    /// grab offset exists only while a captured method owns the handler.
    pub open spec fn wf(self) -> bool {
        &&& v3_bounded(self@.local, STATE_LIMIT as int)
        &&& (self@.parent_world matches Some(p) ==> v3_bounded(p, POS_LIMIT as int))
        &&& (self@.grabbed matches Some(o) ==> v3_bounded(o, STATE_LIMIT as int))
        &&& (self@.grabbed is Some ==> self@.captured is Some)
    }

    /// A fresh handler: Idle, owned by no input method.
    pub fn new(local: Vec3, parent_world: Option<Vec3>) -> (g: Grabble)
        requires
            local.bounded(STATE_LIMIT as int),
            parent_world matches Some(p) ==> p.bounded(POS_LIMIT as int),
        ensures
            g.local == local,
            g.parent_world == parent_world,
            g.captured is None,
            g.grabbed is None,
            g.wf(),
    {
        Grabble { local, parent_world, captured: None, grabbed: None }
    }

    /// Whether some input method currently holds this object.
    pub fn is_held(&self) -> (r: bool)
        ensures
            r == (self@.captured is Some),
    {
        self.captured.is_some()
    }

    /// Well-formed, with the stored coordinates inside STATE_HEADROOM: the
    /// condition under which one frame of updates provably returns a
    /// well-formed handler.
    pub open spec fn headroom(self) -> bool {
        &&& self.wf()
        &&& v3_bounded(self@.local, STATE_HEADROOM as int)
        &&& (self@.grabbed matches Some(o) ==> v3_bounded(o, STATE_HEADROOM as int))
    }

    /// Verified headroom check for hosts that loop frames.
    pub fn has_headroom(&self) -> (r: bool)
        ensures
            r == self.headroom(),
    {
        let local_ok = self.local.within(STATE_HEADROOM);
        let parent_ok = match self.parent_world {
            Some(p) => p.within(POS_LIMIT),
            None => true,
        };
        let offset_ok = match self.grabbed {
            Some(o) => o.0.within(STATE_HEADROOM),
            None => true,
        };
        let owner_ok = self.grabbed.is_none() || self.captured.is_some();
        local_ok && parent_ok && offset_ok && owner_ok
    }
}

} // verus!
