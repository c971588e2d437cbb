//! Fixed-point planar geometry: vectors, rectangles and the containment
//! test that every widget's default hit-test is built on.

use vstd::prelude::*;

verus! {

/// Absolute bound on every coordinate value the layout ever produces.
/// Keeping all positions and sizes inside this range lets every sum and
/// scaled product in the layout code stay far from `i64` overflow.
pub const COORD_BOUND: i64 = 0x4000_0000;

/// Bound on pointer coordinates as the host hands them in: generous
/// room beyond the widest visible area.
pub const MOUSE_BOUND: i64 = 0x40000;

/// A point or extent in fixed-point normalized device coordinates.
#[derive(Clone, Copy, Debug, PartialEq, Eq, Structural)]
pub struct V2 {
    pub x: i64,
    pub y: i64,
}

/// A point in fixed-point normalized device coordinates with a depth
/// layer; depth separates widget bodies from bars, tooltips and text.
#[derive(Clone, Copy, Debug, PartialEq, Eq, Structural)]
pub struct V3 {
    pub x: i64,
    pub y: i64,
    pub z: i64,
}

impl V2 {
    /// The point lifted onto depth layer `z`.
    pub open spec fn spec_extend(self, z: i64) -> V3 {
        V3 { x: self.x, y: self.y, z }
    }

    /// The point lifted onto depth layer `z`.
    #[verifier::when_used_as_spec(spec_extend)]
    pub fn extend(self, z: i64) -> (r: V3)
        ensures
            r == (V3 { x: self.x, y: self.y, z }),
    {
        V3 { x: self.x, y: self.y, z }
    }
}

/// Both components within `b` in absolute value.
pub open spec fn bounded(v: V2, b: int) -> bool {
    -b <= v.x <= b && -b <= v.y <= b
}

/// A product of two nonnegative bounded factors is bounded by the
/// product of the bounds.
pub proof fn lemma_mul_le(a: int, amax: int, b: int, bmax: int)
    requires
        0 <= a <= amax,
        0 <= b <= bmax,
    ensures
        0 <= a * b <= amax * bmax,
{
    assert(0 <= a * b <= amax * bmax) by (nonlinear_arith)
        requires
            0 <= a <= amax,
            0 <= b <= bmax,
    ;
}

/// A product of a bounded factor and a nonnegative bounded factor stays
/// within the product of the bounds in absolute value.
pub proof fn lemma_mul_abs_le(a: int, amax: int, b: int, bmax: int)
    requires
        -amax <= a <= amax,
        0 <= b <= bmax,
    ensures
        -(amax * bmax) <= a * b <= amax * bmax,
{
    assert(-(amax * bmax) <= a * b <= amax * bmax) by (nonlinear_arith)
        requires
            -amax <= a <= amax,
            0 <= b <= bmax,
    ;
}

/// Whether `pos` lies inside the axis-aligned rectangle with lower-left
/// corner `origin` and extent `size`: inclusive on the lower edge,
/// exclusive on the upper, on both axes.
pub open spec fn in_rect(pos: V2, origin: V2, size: V2) -> bool {
    &&& origin.x <= pos.x < origin.x + size.x
    &&& origin.y <= pos.y < origin.y + size.y
}

/// The rectangle containment test all default hit-testing goes through.
pub fn rect(pos: V2, origin: V2, size: V2) -> (r: bool)
    requires
        bounded(origin, 3 * COORD_BOUND),
        bounded(size, 2 * COORD_BOUND),
    ensures
        r == in_rect(pos, origin, size),
{
    pos.x >= origin.x && pos.x < origin.x + size.x && pos.y >= origin.y && pos.y < origin.y + size.y
}

/// Squared euclidean distance, the drag-versus-click discriminator.
pub fn dist2(a: V2, b: V2) -> (r: i64)
    requires
        bounded(a, COORD_BOUND as int / 2),
        bounded(b, COORD_BOUND as int / 2),
    ensures
        r == (a.x - b.x) * (a.x - b.x) + (a.y - b.y) * (a.y - b.y),
        r >= 0,
{
    let dx = a.x - b.x;
    let dy = a.y - b.y;
    proof {
        assert(dx * dx >= 0 && dy * dy >= 0) by (nonlinear_arith);
        assert(dx * dx <= 0x4000_0000i64 * 0x4000_0000i64 && dy * dy <= 0x4000_0000i64 * 0x4000_0000i64) by (nonlinear_arith)
            requires
                -0x4000_0000i64 <= dx <= 0x4000_0000i64,
                -0x4000_0000i64 <= dy <= 0x4000_0000i64,
        ;
    }
    dx * dx + dy * dy
}

} // verus!
