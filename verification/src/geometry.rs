//! Geometric primitives and the exact rational model of a ray/wall crossing.
//!
//! A ray starts at an observer point `p` and runs along a direction `d`
//! (any nonzero integer vector). A wall is the closed segment between
//! `pos1` and `pos2`. Writing the wall parametrically as
//! `pos1 + t * (pos2 - pos1)` and the ray as `p + u * d`, the crossing is
//! the solution of a 2x2 linear system with determinant `den`; `t` and `u`
//! are the rationals `t_num / den` and `u_num / den`. The crossing counts
//! only when `0 < t < 1` (strictly inside the wall, endpoints excluded)
//! and `u > 0` (strictly ahead of the observer). All three quantities are
//! kept with a positive denominator, so those conditions become integer
//! comparisons on the numerators.

use vstd::prelude::*;

verus! {

/// Largest coordinate magnitude the engine accepts (2^20). Keeps every
/// determinant within `i64` and every cross-multiplied distance
/// comparison within `i128`.
pub const MAX_COORD: i64 = 1048576;

/// A bound on the magnitude of `den`, `t_num` and `u_num` for in-range
/// inputs: each is a sum of two products of differences of coordinates,
/// so it is at most `2 * (2 * MAX_COORD)^2 = 2^43`; stated a little
/// looser as `2^44`.
pub open spec fn det_bound() -> int {
    0x100000000000
}

/// A 2D point with exact fixed-point coordinates.
#[derive(Clone, Copy, PartialEq, Eq, Structural, Debug)]
pub struct Point {
    pub x: i64,
    pub y: i64,
}

/// A 2D direction vector; only its direction matters, not its length.
#[derive(Clone, Copy, PartialEq, Eq, Structural, Debug)]
pub struct Dir {
    pub x: i64,
    pub y: i64,
}

/// An immutable line segment between two endpoints.
#[derive(Clone, Copy, PartialEq, Eq, Structural, Debug)]
pub struct Wall {
    pub pos1: Point,
    pub pos2: Point,
}

pub open spec fn coord_ok(c: i64) -> bool {
    -MAX_COORD <= c && c <= MAX_COORD
}

pub open spec fn point_ok(p: Point) -> bool {
    coord_ok(p.x) && coord_ok(p.y)
}

pub open spec fn dir_ok(d: Dir) -> bool {
    coord_ok(d.x) && coord_ok(d.y)
}

pub open spec fn wall_ok(w: Wall) -> bool {
    point_ok(w.pos1) && point_ok(w.pos2)
}

/// Determinant of the segment/ray system. Zero exactly when the ray
/// direction is parallel to the wall.
pub open spec fn den_spec(p: Point, d: Dir, w: Wall) -> int {
    (w.pos1.y - w.pos2.y) * d.x - (w.pos1.x - w.pos2.x) * d.y
}

/// Numerator of the wall parameter `t` (before sign normalization).
pub open spec fn t_num_spec(p: Point, d: Dir, w: Wall) -> int {
    (w.pos1.y - p.y) * d.x - (w.pos1.x - p.x) * d.y
}

/// Numerator of the ray parameter `u` (before sign normalization).
pub open spec fn u_num_spec(p: Point, d: Dir, w: Wall) -> int {
    -((w.pos1.x - w.pos2.x) * (w.pos1.y - p.y) - (w.pos1.y - w.pos2.y) * (w.pos1.x - p.x))
}

/// `den`, normalized to be nonnegative.
pub open spec fn den_n(p: Point, d: Dir, w: Wall) -> int {
    if den_spec(p, d, w) < 0 {
        -den_spec(p, d, w)
    } else {
        den_spec(p, d, w)
    }
}

/// `t_num`, with the sign flipped along with `den`.
pub open spec fn t_n(p: Point, d: Dir, w: Wall) -> int {
    if den_spec(p, d, w) < 0 {
        -t_num_spec(p, d, w)
    } else {
        t_num_spec(p, d, w)
    }
}

/// `u_num`, with the sign flipped along with `den`.
pub open spec fn u_n(p: Point, d: Dir, w: Wall) -> int {
    if den_spec(p, d, w) < 0 {
        -u_num_spec(p, d, w)
    } else {
        u_num_spec(p, d, w)
    }
}

/// The open-interval acceptance policy on the normalized parameters
/// (`den > 0`): `0 < t < 1` and `u > 0` as integer comparisons.
pub open spec fn can_cast(t: int, u: int, den: int) -> bool {
    0 < t && t < den && 0 < u
}

/// Whether the ray from `p` along `d` crosses the wall `w` at a point
/// strictly inside the segment and strictly ahead of the observer.
pub open spec fn valid_crossing(p: Point, d: Dir, w: Wall) -> bool {
    den_spec(p, d, w) != 0 && can_cast(t_n(p, d, w), u_n(p, d, w), den_n(p, d, w))
}

/// Whether the crossing of `w1` lies strictly nearer to the observer than
/// the crossing of `w2`, along the same ray: `u1/den1 < u2/den2`,
/// cross-multiplied over the positive denominators.
pub open spec fn closer(p: Point, d: Dir, w1: Wall, w2: Wall) -> bool {
    u_n(p, d, w1) * den_n(p, d, w2) < u_n(p, d, w2) * den_n(p, d, w1)
}

/// Decides the acceptance policy on normalized parameters.
pub fn can_cast_ray(t: i64, u: i64, den: i64) -> (r: bool)
    ensures
        r == can_cast(t as int, u as int, den as int),
{
    0 < t && t < den && 0 < u
}

/// `|a * b| <= aa * bb` whenever `|a| <= aa` and `|b| <= bb`.
pub proof fn lemma_mul_bound(a: int, b: int, aa: int, bb: int)
    requires
        -aa <= a,
        a <= aa,
        -bb <= b,
        b <= bb,
    ensures
        -(aa * bb) <= a * b,
        a * b <= aa * bb,
{
    assert(-(aa * bb) <= a * b && a * b <= aa * bb) by (nonlinear_arith)
        requires
            -aa <= a,
            a <= aa,
            -bb <= b,
            b <= bb,
    ;
}

/// For in-range inputs the three determinant-form quantities stay within
/// `det_bound()`, and hence comfortably within `i64`.
pub proof fn lemma_dets_bounded(p: Point, d: Dir, w: Wall)
    requires
        point_ok(p),
        dir_ok(d),
        wall_ok(w),
    ensures
        -det_bound() <= den_spec(p, d, w) && den_spec(p, d, w) <= det_bound(),
        -det_bound() <= t_num_spec(p, d, w) && t_num_spec(p, d, w) <= det_bound(),
        -det_bound() <= u_num_spec(p, d, w) && u_num_spec(p, d, w) <= det_bound(),
        0 <= den_n(p, d, w) && den_n(p, d, w) <= det_bound(),
        -det_bound() <= t_n(p, d, w) && t_n(p, d, w) <= det_bound(),
        -det_bound() <= u_n(p, d, w) && u_n(p, d, w) <= det_bound(),
{
    lemma_mul_bound(w.pos1.y - w.pos2.y, d.x as int, 0x200000, 0x100000);
    lemma_mul_bound(w.pos1.x - w.pos2.x, d.y as int, 0x200000, 0x100000);
    lemma_mul_bound(w.pos1.y - p.y, d.x as int, 0x200000, 0x100000);
    lemma_mul_bound(w.pos1.x - p.x, d.y as int, 0x200000, 0x100000);
    lemma_mul_bound(w.pos1.x - w.pos2.x, w.pos1.y - p.y, 0x200000, 0x200000);
    lemma_mul_bound(w.pos1.y - w.pos2.y, w.pos1.x - p.x, 0x200000, 0x200000);
}

} // verus!
