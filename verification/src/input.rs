use vstd::prelude::*;

use crate::math::{dist_sq, distance_sq, lemma_sq_bound, sq, v3_bounded, Vec3, V3, POS_LIMIT};

verus! {

/// Pinch allowance between thumb tip and index tip, in micrometres
/// (five millimetres).
pub const GRAB_SEPARATION: i64 = 5_000;

/// One and a half times the pinch allowance: the widened allowance under
/// which a pinch may begin a capture from slightly farther apart than the
/// fingers must stay to keep holding.
pub const EXTENDED_GRAB_SEPARATION: i64 = 7_500;

/// Scroll deltas are discrete ticks; each tick pushes or pulls a grabbed
/// object a tenth of a metre along the depth axis.
pub const SCROLL_DEPTH_STEP: i64 = 100_000;

/// Largest scroll delta accepted in one frame, in ticks.
pub const SCROLL_LIMIT: i64 = 1_000_000;

/// A hand reading: the two fingertips that make a pinch gesture, each a
/// centre position with a tip radius.
#[derive(Clone, Copy, Debug, PartialEq, Eq)]
pub struct Hand {
    pub thumb_pos: Vec3,
    pub thumb_radius: i64,
    pub index_pos: Vec3,
    pub index_radius: i64,
}

/// Model of a hand reading over unbounded integers.
pub struct HandV {
    pub thumb_pos: V3,
    pub thumb_radius: int,
    pub index_pos: V3,
    pub index_radius: int,
}

impl View for Hand {
    type V = HandV;

    open spec fn view(&self) -> HandV {
        HandV {
            thumb_pos: self.thumb_pos@,
            thumb_radius: self.thumb_radius as int,
            index_pos: self.index_pos@,
            index_radius: self.index_radius as int,
        }
    }
}

impl Hand {
    pub open spec fn wf(self) -> bool {
        &&& v3_bounded(self@.thumb_pos, POS_LIMIT as int)
        &&& v3_bounded(self@.index_pos, POS_LIMIT as int)
        &&& 0 <= self@.thumb_radius <= POS_LIMIT as int
        &&& 0 <= self@.index_radius <= POS_LIMIT as int
    }
}

/// The pinch test: the fingertips are closer than the sum of their radii
/// plus the given allowance.
pub open spec fn spec_finger_separation(h: HandV, allowance: int) -> bool {
    dist_sq(h.thumb_pos, h.index_pos) < sq(h.thumb_radius + h.index_radius + allowance)
}

/// Whether the fingertips of `hand` are within `max_separation` of touching:
/// the grab gesture of the hand modality.
pub fn finger_separation(hand: &Hand, max_separation: i64) -> (r: bool)
    requires
        hand.wf(),
        0 <= max_separation <= POS_LIMIT,
    ensures
        r == spec_finger_separation(hand@, max_separation as int),
{
    let d2: i128 = distance_sq(hand.thumb_pos, hand.index_pos);
    let reach: i128 = hand.thumb_radius as i128 + hand.index_radius as i128
        + max_separation as i128;
    proof {
        lemma_sq_bound(reach as int, 3 * POS_LIMIT as int);
    }
    d2 < reach * reach
}

/// A squeeze-controller reading.
#[derive(Clone, Copy, Debug, PartialEq, Eq)]
pub struct ControllerData {
    pub squeezed: bool,
}

/// A mouse reading backing a pointer: the left button and this frame's
/// discrete vertical scroll delta, in ticks.
#[derive(Clone, Copy, Debug, PartialEq, Eq)]
pub struct MouseData {
    pub left_pressed: bool,
    pub scroll_y: i64,
}

/// Model of a mouse reading.
pub struct MouseV {
    pub left_pressed: bool,
    pub scroll_y: int,
}

impl View for MouseData {
    type V = MouseV;

    open spec fn view(&self) -> MouseV {
        MouseV { left_pressed: self.left_pressed, scroll_y: self.scroll_y as int }
    }
}

/// The gesture channel an input method carries, one variant per modality.
/// A ray-style pointer is mouse-backed when it carries mouse data; a bare
/// ray has no gesture channel at all.
#[derive(Clone, Copy, Debug, PartialEq)]
pub enum InputData {
    Hand(Hand),
    Controller(ControllerData),
    Pointer(Option<MouseData>),
}

/// Model of a gesture channel.
pub enum InputDataV {
    Hand(HandV),
    Controller(bool),
    Pointer(Option<MouseV>),
}

impl View for InputData {
    type V = InputDataV;

    open spec fn view(&self) -> InputDataV {
        match *self {
            InputData::Hand(h) => InputDataV::Hand(h@),
            InputData::Controller(c) => InputDataV::Controller(c.squeezed),
            InputData::Pointer(m) => InputDataV::Pointer(
                match m {
                    Some(md) => Some(md@),
                    None => None,
                },
            ),
        }
    }
}

impl InputData {
    pub open spec fn wf(self) -> bool {
        match self {
            InputData::Hand(h) => h.wf(),
            InputData::Controller(_) => true,
            InputData::Pointer(m) => match m {
                Some(md) => -SCROLL_LIMIT <= md.scroll_y <= SCROLL_LIMIT,
                None => true,
            },
        }
    }
}

/// One competing input source: a stable identity, its pointer pose in world
/// space for this frame, and its gesture channel.
#[derive(Clone, Copy, Debug, PartialEq)]
pub struct InputMethod {
    pub id: u64,
    pub pose: Vec3,
    pub data: InputData,
}

/// Model of an input method.
pub struct MethodV {
    pub id: int,
    pub pose: V3,
    pub data: InputDataV,
}

impl View for InputMethod {
    type V = MethodV;

    open spec fn view(&self) -> MethodV {
        MethodV { id: self.id as int, pose: self.pose@, data: self.data@ }
    }
}

impl InputMethod {
    pub open spec fn wf(self) -> bool {
        &&& v3_bounded(self@.pose, POS_LIMIT as int)
        &&& self.data.wf()
    }

    /// Verified range check over the pose and the gesture channel, so a
    /// host can establish the frame functions' preconditions for a
    /// snapshot it did not construct itself.
    pub fn is_well_formed(&self) -> (r: bool)
        ensures
            r == self.wf(),
    {
        let data_ok = match &self.data {
            InputData::Hand(h) => h.thumb_pos.within(POS_LIMIT)
                && h.index_pos.within(POS_LIMIT)
                && 0 <= h.thumb_radius && h.thumb_radius <= POS_LIMIT
                && 0 <= h.index_radius && h.index_radius <= POS_LIMIT,
            InputData::Controller(_) => true,
            InputData::Pointer(Some(md)) => -SCROLL_LIMIT <= md.scroll_y
                && md.scroll_y <= SCROLL_LIMIT,
            InputData::Pointer(None) => true,
        };
        self.pose.within(POS_LIMIT) && data_ok
    }
}

pub open spec fn methods_view(s: Seq<InputMethod>) -> Seq<MethodV> {
    s.map_values(|m: InputMethod| m@)
}

/// Whether the method's gesture is active at its base threshold: pinch for
/// a hand, squeeze for a controller, left button for a mouse-backed pointer.
/// A missing channel contributes an inactive gesture rather than an error.
pub open spec fn spec_gesture_active(d: InputDataV) -> bool {
    match d {
        InputDataV::Hand(h) => spec_finger_separation(h, GRAB_SEPARATION as int),
        InputDataV::Controller(squeezed) => squeezed,
        InputDataV::Pointer(m) => match m {
            Some(mo) => mo.left_pressed,
            None => false,
        },
    }
}

/// Evaluates the gesture of one method at its base threshold.
pub fn gesture_active(data: &InputData) -> (r: bool)
    requires
        data.wf(),
    ensures
        r == spec_gesture_active(data@),
{
    match data {
        InputData::Hand(h) => finger_separation(h, GRAB_SEPARATION),
        InputData::Controller(c) => c.squeezed,
        InputData::Pointer(Some(m)) => m.left_pressed,
        InputData::Pointer(None) => false,
    }
}

/// Scroll delta carried by the method this frame, in ticks: zero for every
/// modality except a mouse-backed pointer.
pub open spec fn spec_scroll(d: InputDataV) -> int {
    match d {
        InputDataV::Pointer(m) => match m {
            Some(mo) => mo.scroll_y,
            None => 0,
        },
        _ => 0,
    }
}

} // verus!
