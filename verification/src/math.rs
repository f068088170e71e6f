use vstd::prelude::*;

verus! {

/// Bound on coordinates supplied from outside each frame (input-method
/// poses, closest points on spatial fields, fingertip positions): one
/// million metres from the origin.
pub const POS_LIMIT: i64 = 1_000_000_000_000;

/// Bound on coordinates the subsystem itself stores across frames (local
/// transforms and grab offsets). Wide enough that one frame of arithmetic
/// over well-formed inputs stays far inside the 64-bit range.
pub const STATE_LIMIT: i64 = 1_000_000_000_000_000_000;

/// A point or translation in scene space. Lengths are fixed-point integers
/// counted in micrometres, one million units to one scene metre, so every
/// geometric comparison below is exact integer arithmetic.
#[derive(Clone, Copy, Debug, PartialEq, Eq)]
pub struct Vec3 {
    pub x: i64,
    pub y: i64,
    pub z: i64,
}

/// Mathematical model of a point: unbounded integer coordinates.
pub struct V3 {
    pub x: int,
    pub y: int,
    pub z: int,
}

impl View for Vec3 {
    type V = V3;

    open spec fn view(&self) -> V3 {
        V3 { x: self.x as int, y: self.y as int, z: self.z as int }
    }
}

pub open spec fn v3_zero() -> V3 {
    V3 { x: 0, y: 0, z: 0 }
}

pub open spec fn v3_add(a: V3, b: V3) -> V3 {
    V3 { x: a.x + b.x, y: a.y + b.y, z: a.z + b.z }
}

pub open spec fn v3_sub(a: V3, b: V3) -> V3 {
    V3 { x: a.x - b.x, y: a.y - b.y, z: a.z - b.z }
}

pub open spec fn sq(a: int) -> int {
    a * a
}

/// Squared Euclidean distance between two points.
pub open spec fn dist_sq(a: V3, b: V3) -> int {
    sq(a.x - b.x) + sq(a.y - b.y) + sq(a.z - b.z)
}

pub open spec fn v3_bounded(a: V3, bound: int) -> bool {
    &&& -bound <= a.x <= bound
    &&& -bound <= a.y <= bound
    &&& -bound <= a.z <= bound
}

pub proof fn lemma_sq_bound(x: int, b: int)
    by (nonlinear_arith)
    requires
        -b <= x <= b,
        0 <= b,
    ensures
        0 <= x * x <= b * b,
{
}

impl Vec3 {
    pub open spec fn bounded(self, bound: int) -> bool {
        v3_bounded(self@, bound)
    }

    /// Tests every coordinate against the given bound, so hosts can
    /// establish the range preconditions of the frame functions by a
    /// verified check instead of by hand.
    pub fn within(&self, bound: i64) -> (r: bool)
        requires
            0 <= bound,
        ensures
            r == v3_bounded(self@, bound as int),
    {
        -bound <= self.x && self.x <= bound
            && -bound <= self.y && self.y <= bound
            && -bound <= self.z && self.z <= bound
    }

    /// Componentwise sum, the composition of two translations.
    pub fn add(self, other: Vec3) -> (r: Vec3)
        requires
            i64::MIN <= self.x + other.x <= i64::MAX,
            i64::MIN <= self.y + other.y <= i64::MAX,
            i64::MIN <= self.z + other.z <= i64::MAX,
        ensures
            r@ == v3_add(self@, other@),
    {
        Vec3 { x: self.x + other.x, y: self.y + other.y, z: self.z + other.z }
    }

    /// Componentwise difference, composing with an inverted translation.
    pub fn sub(self, other: Vec3) -> (r: Vec3)
        requires
            i64::MIN <= self.x - other.x <= i64::MAX,
            i64::MIN <= self.y - other.y <= i64::MAX,
            i64::MIN <= self.z - other.z <= i64::MAX,
        ensures
            r@ == v3_sub(self@, other@),
    {
        Vec3 { x: self.x - other.x, y: self.y - other.y, z: self.z - other.z }
    }
}

/// Exact squared distance. Squaring both sides of every threshold
/// comparison avoids the square root while preserving the comparison,
/// since distances and thresholds are non-negative.
pub fn distance_sq(a: Vec3, b: Vec3) -> (r: i128)
    requires
        a.bounded(POS_LIMIT as int),
        b.bounded(POS_LIMIT as int),
    ensures
        r == dist_sq(a@, b@),
        0 <= r,
{
    let dx: i128 = a.x as i128 - b.x as i128;
    let dy: i128 = a.y as i128 - b.y as i128;
    let dz: i128 = a.z as i128 - b.z as i128;
    proof {
        lemma_sq_bound(dx as int, 2 * POS_LIMIT as int);
        lemma_sq_bound(dy as int, 2 * POS_LIMIT as int);
        lemma_sq_bound(dz as int, 2 * POS_LIMIT as int);
    }
    dx * dx + dy * dy + dz * dz
}

} // verus!
