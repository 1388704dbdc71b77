//! The enclosure guarantee: with only the four boundary walls present and
//! the observer strictly inside the screen rectangle, every ray direction
//! that does not point exactly at a screen corner crosses exactly one
//! boundary wall. (A corner-aimed ray hits two wall endpoints, and the
//! open-interval policy rejects endpoint crossings, so such a direction
//! crosses nothing; it is excluded by precondition.)

use vstd::prelude::*;

use crate::geometry::Dir;
use crate::geometry::Point;
use crate::geometry::den_n;
use crate::geometry::den_spec;
use crate::geometry::t_n;
use crate::geometry::t_num_spec;
use crate::geometry::u_n;
use crate::geometry::u_num_spec;
use crate::geometry::valid_crossing;
use crate::fan::best_idx;
use crate::fan::fan_spec;
use crate::laws::lemma_best_is_nearest;
use crate::scene::boundary_walls;

verus! {

/// The ray leaves the screen through the open interior of the right wall.
pub open spec fn exits_right(p: Point, d: Dir, width: i64, height: i64) -> bool {
    &&& d.x > 0
    &&& 0 < p.y * d.x + (width - p.x) * d.y
    &&& p.y * d.x + (width - p.x) * d.y < height * d.x
}

/// The ray leaves the screen through the open interior of the left wall.
pub open spec fn exits_left(p: Point, d: Dir, width: i64, height: i64) -> bool {
    &&& d.x < 0
    &&& 0 < p.x * d.y - p.y * d.x
    &&& p.x * d.y - p.y * d.x < -(height * d.x)
}

/// The ray leaves the screen through the open interior of the bottom wall
/// (the wall at `y == height`).
pub open spec fn exits_bottom(p: Point, d: Dir, width: i64, height: i64) -> bool {
    &&& d.y > 0
    &&& 0 < (height - p.y) * d.x + p.x * d.y
    &&& (height - p.y) * d.x + p.x * d.y < width * d.y
}

/// The ray leaves the screen through the open interior of the top wall
/// (the wall at `y == 0`).
pub open spec fn exits_top(p: Point, d: Dir, width: i64, height: i64) -> bool {
    &&& d.y < 0
    &&& 0 < p.y * d.x - p.x * d.y
    &&& p.y * d.x - p.x * d.y < -(width * d.y)
}

/// The observer sits strictly inside the `width` by `height` screen.
pub open spec fn strictly_inside(p: Point, width: i64, height: i64) -> bool {
    0 < p.x && p.x < width && 0 < p.y && p.y < height
}

/// The direction does not point exactly at any of the four screen
/// corners (nor is it zero, which the first two disequalities exclude
/// together with the last two).
pub open spec fn misses_corners(p: Point, d: Dir, width: i64, height: i64) -> bool {
    &&& (height - p.y) * d.x != (width - p.x) * d.y
    &&& (0 - p.y) * d.x != (width - p.x) * d.y
    &&& (height - p.y) * d.x != (0 - p.x) * d.y
    &&& (0 - p.y) * d.x != (0 - p.x) * d.y
}

proof fn lemma_right_crossing(p: Point, d: Dir, width: i64, height: i64)
    requires
        strictly_inside(p, width, height),
    ensures
        valid_crossing(p, d, boundary_walls(width, height)[0]) == exits_right(p, d, width, height),
{
    let r = boundary_walls(width, height)[0];
    let dx = d.x as int;
    let dy = d.y as int;
    let px = p.x as int;
    let py = p.y as int;
    let w = width as int;
    let h = height as int;
    assert(r.pos1.x == w && r.pos1.y == 0 && r.pos2.x == w && r.pos2.y == h);
    let den = den_spec(p, d, r);
    let tn = t_num_spec(p, d, r);
    let un = u_num_spec(p, d, r);
    assert(den == (0 - h) * dx - (w - w) * dy);
    assert(tn == (0 - py) * dx - (w - px) * dy);
    assert(un == -((w - w) * (0 - py) - (0 - h) * (w - px)));
    assert((0 - h) * dx - (w - w) * dy == -(h * dx)) by (nonlinear_arith);
    assert((0 - py) * dx - (w - px) * dy == -(py * dx + (w - px) * dy)) by (nonlinear_arith);
    assert(-((w - w) * (0 - py) - (0 - h) * (w - px)) == -(h * (w - px))) by (nonlinear_arith);
    assert(h * (w - px) > 0) by (nonlinear_arith)
        requires
            h > 0,
            w - px > 0,
    ;
    if dx > 0 {
        assert(h * dx > 0) by (nonlinear_arith)
            requires
                h > 0,
                dx > 0,
        ;
        assert(den_n(p, d, r) == h * dx);
        assert(t_n(p, d, r) == py * dx + (w - px) * dy);
        assert(u_n(p, d, r) == h * (w - px));
    } else if dx < 0 {
        assert(h * dx < 0) by (nonlinear_arith)
            requires
                h > 0,
                dx < 0,
        ;
        assert(u_n(p, d, r) == -(h * (w - px)));
    } else {
        assert(h * dx == 0) by (nonlinear_arith)
            requires
                dx == 0,
        ;
    }
}

proof fn lemma_left_crossing(p: Point, d: Dir, width: i64, height: i64)
    requires
        strictly_inside(p, width, height),
    ensures
        valid_crossing(p, d, boundary_walls(width, height)[1]) == exits_left(p, d, width, height),
{
    let r = boundary_walls(width, height)[1];
    let dx = d.x as int;
    let dy = d.y as int;
    let px = p.x as int;
    let py = p.y as int;
    let h = height as int;
    assert(r.pos1.x == 0 && r.pos1.y == 0 && r.pos2.x == 0 && r.pos2.y == h);
    let den = den_spec(p, d, r);
    let tn = t_num_spec(p, d, r);
    let un = u_num_spec(p, d, r);
    assert(den == (0 - h) * dx - (0 - 0) * dy);
    assert(tn == (0 - py) * dx - (0 - px) * dy);
    assert(un == -((0 - 0) * (0 - py) - (0 - h) * (0 - px)));
    assert((0 - h) * dx - (0 - 0) * dy == -(h * dx)) by (nonlinear_arith);
    assert((0 - py) * dx - (0 - px) * dy == px * dy - py * dx) by (nonlinear_arith);
    assert(-((0 - 0) * (0 - py) - (0 - h) * (0 - px)) == h * px) by (nonlinear_arith);
    assert(h * px > 0) by (nonlinear_arith)
        requires
            h > 0,
            px > 0,
    ;
    if dx < 0 {
        assert(h * dx < 0) by (nonlinear_arith)
            requires
                h > 0,
                dx < 0,
        ;
        assert(den_n(p, d, r) == -(h * dx));
        assert(t_n(p, d, r) == px * dy - py * dx);
        assert(u_n(p, d, r) == h * px);
    } else if dx > 0 {
        assert(h * dx > 0) by (nonlinear_arith)
            requires
                h > 0,
                dx > 0,
        ;
        assert(u_n(p, d, r) == -(h * px));
    } else {
        assert(h * dx == 0) by (nonlinear_arith)
            requires
                dx == 0,
        ;
    }
}

proof fn lemma_bottom_crossing(p: Point, d: Dir, width: i64, height: i64)
    requires
        strictly_inside(p, width, height),
    ensures
        valid_crossing(p, d, boundary_walls(width, height)[2]) == exits_bottom(
            p,
            d,
            width,
            height,
        ),
{
    let r = boundary_walls(width, height)[2];
    let dx = d.x as int;
    let dy = d.y as int;
    let px = p.x as int;
    let py = p.y as int;
    let w = width as int;
    let h = height as int;
    assert(r.pos1.x == 0 && r.pos1.y == h && r.pos2.x == w && r.pos2.y == h);
    let den = den_spec(p, d, r);
    let tn = t_num_spec(p, d, r);
    let un = u_num_spec(p, d, r);
    assert(den == (h - h) * dx - (0 - w) * dy);
    assert(tn == (h - py) * dx - (0 - px) * dy);
    assert(un == -((0 - w) * (h - py) - (h - h) * (0 - px)));
    assert((h - h) * dx - (0 - w) * dy == w * dy) by (nonlinear_arith);
    assert((h - py) * dx - (0 - px) * dy == (h - py) * dx + px * dy) by (nonlinear_arith);
    assert(-((0 - w) * (h - py) - (h - h) * (0 - px)) == w * (h - py)) by (nonlinear_arith);
    assert(w * (h - py) > 0) by (nonlinear_arith)
        requires
            w > 0,
            h - py > 0,
    ;
    if dy > 0 {
        assert(w * dy > 0) by (nonlinear_arith)
            requires
                w > 0,
                dy > 0,
        ;
        assert(den_n(p, d, r) == w * dy);
        assert(t_n(p, d, r) == (h - py) * dx + px * dy);
        assert(u_n(p, d, r) == w * (h - py));
    } else if dy < 0 {
        assert(w * dy < 0) by (nonlinear_arith)
            requires
                w > 0,
                dy < 0,
        ;
        assert(u_n(p, d, r) == -(w * (h - py)));
    } else {
        assert(w * dy == 0) by (nonlinear_arith)
            requires
                dy == 0,
        ;
    }
}

proof fn lemma_top_crossing(p: Point, d: Dir, width: i64, height: i64)
    requires
        strictly_inside(p, width, height),
    ensures
        valid_crossing(p, d, boundary_walls(width, height)[3]) == exits_top(p, d, width, height),
{
    let r = boundary_walls(width, height)[3];
    let dx = d.x as int;
    let dy = d.y as int;
    let px = p.x as int;
    let py = p.y as int;
    let w = width as int;
    assert(r.pos1.x == 0 && r.pos1.y == 0 && r.pos2.x == w && r.pos2.y == 0);
    let den = den_spec(p, d, r);
    let tn = t_num_spec(p, d, r);
    let un = u_num_spec(p, d, r);
    assert(den == (0 - 0) * dx - (0 - w) * dy);
    assert(tn == (0 - py) * dx - (0 - px) * dy);
    assert(un == -((0 - w) * (0 - py) - (0 - 0) * (0 - px)));
    assert((0 - 0) * dx - (0 - w) * dy == w * dy) by (nonlinear_arith);
    assert((0 - py) * dx - (0 - px) * dy == -(py * dx - px * dy)) by (nonlinear_arith);
    assert(-((0 - w) * (0 - py) - (0 - 0) * (0 - px)) == -(w * py)) by (nonlinear_arith);
    assert(w * py > 0) by (nonlinear_arith)
        requires
            w > 0,
            py > 0,
    ;
    if dy < 0 {
        assert(w * dy < 0) by (nonlinear_arith)
            requires
                w > 0,
                dy < 0,
        ;
        assert(den_n(p, d, r) == -(w * dy));
        assert(t_n(p, d, r) == py * dx - px * dy);
        assert(u_n(p, d, r) == w * py);
    } else if dy > 0 {
        assert(w * dy > 0) by (nonlinear_arith)
            requires
                w > 0,
                dy > 0,
        ;
        assert(u_n(p, d, r) == -(w * py));
    } else {
        assert(w * dy == 0) by (nonlinear_arith)
            requires
                dy == 0,
        ;
    }
}

/// Exactly one of the four exit predicates holds for a nonzero direction
/// that misses the corners.
proof fn lemma_one_exit(p: Point, d: Dir, width: i64, height: i64)
    requires
        strictly_inside(p, width, height),
        d.x != 0 || d.y != 0,
        misses_corners(p, d, width, height),
    ensures
        exits_right(p, d, width, height) || exits_left(p, d, width, height) || exits_bottom(
            p,
            d,
            width,
            height,
        ) || exits_top(p, d, width, height),
        !(exits_right(p, d, width, height) && exits_bottom(p, d, width, height)),
        !(exits_right(p, d, width, height) && exits_top(p, d, width, height)),
        !(exits_left(p, d, width, height) && exits_bottom(p, d, width, height)),
        !(exits_left(p, d, width, height) && exits_top(p, d, width, height)),
{
    let dx = d.x as int;
    let dy = d.y as int;
    let px = p.x as int;
    let py = p.y as int;
    let w = width as int;
    let h = height as int;
    // splitting the extents at the observer relates the two bounds of
    // neighbouring walls
    assert(h * dx == py * dx + (h - py) * dx) by (nonlinear_arith);
    assert(w * dy == px * dy + (w - px) * dy) by (nonlinear_arith);
    assert(px * dy - w * dy == -((w - px) * dy)) by (nonlinear_arith);
    assert(py * dx - h * dx == -((h - py) * dx)) by (nonlinear_arith);
    assert((0 - py) * dx == -(py * dx)) by (nonlinear_arith);
    assert((0 - px) * dy == -(px * dy)) by (nonlinear_arith);
    if dx > 0 && dy > 0 {
        assert(py * dx > 0) by (nonlinear_arith)
            requires
                py > 0,
                dx > 0,
        ;
        assert((w - px) * dy > 0) by (nonlinear_arith)
            requires
                w - px > 0,
                dy > 0,
        ;
        assert((h - py) * dx > 0) by (nonlinear_arith)
            requires
                h - py > 0,
                dx > 0,
        ;
        assert(px * dy > 0) by (nonlinear_arith)
            requires
                px > 0,
                dy > 0,
        ;
    } else if dx > 0 && dy < 0 {
        assert(py * dx > 0) by (nonlinear_arith)
            requires
                py > 0,
                dx > 0,
        ;
        assert((w - px) * dy < 0) by (nonlinear_arith)
            requires
                w - px > 0,
                dy < 0,
        ;
        assert((h - py) * dx > 0) by (nonlinear_arith)
            requires
                h - py > 0,
                dx > 0,
        ;
        assert(px * dy < 0) by (nonlinear_arith)
            requires
                px > 0,
                dy < 0,
        ;
    } else if dx < 0 && dy > 0 {
        assert(py * dx < 0) by (nonlinear_arith)
            requires
                py > 0,
                dx < 0,
        ;
        assert((w - px) * dy > 0) by (nonlinear_arith)
            requires
                w - px > 0,
                dy > 0,
        ;
        assert((h - py) * dx < 0) by (nonlinear_arith)
            requires
                h - py > 0,
                dx < 0,
        ;
        assert(px * dy > 0) by (nonlinear_arith)
            requires
                px > 0,
                dy > 0,
        ;
    } else if dx < 0 && dy < 0 {
        assert(py * dx < 0) by (nonlinear_arith)
            requires
                py > 0,
                dx < 0,
        ;
        assert((w - px) * dy < 0) by (nonlinear_arith)
            requires
                w - px > 0,
                dy < 0,
        ;
        assert((h - py) * dx < 0) by (nonlinear_arith)
            requires
                h - py > 0,
                dx < 0,
        ;
        assert(px * dy < 0) by (nonlinear_arith)
            requires
                px > 0,
                dy < 0,
        ;
    } else if dx > 0 && dy == 0 {
        assert(py * dx > 0) by (nonlinear_arith)
            requires
                py > 0,
                dx > 0,
        ;
        assert((w - px) * dy == 0) by (nonlinear_arith)
            requires
                dy == 0,
        ;
        assert((h - py) * dx > 0) by (nonlinear_arith)
            requires
                h - py > 0,
                dx > 0,
        ;
        assert(px * dy == 0) by (nonlinear_arith)
            requires
                dy == 0,
        ;
    } else if dx < 0 && dy == 0 {
        assert(py * dx < 0) by (nonlinear_arith)
            requires
                py > 0,
                dx < 0,
        ;
        assert((w - px) * dy == 0) by (nonlinear_arith)
            requires
                dy == 0,
        ;
        assert((h - py) * dx < 0) by (nonlinear_arith)
            requires
                h - py > 0,
                dx < 0,
        ;
        assert(px * dy == 0) by (nonlinear_arith)
            requires
                dy == 0,
        ;
    } else if dx == 0 && dy > 0 {
        assert(py * dx == 0) by (nonlinear_arith)
            requires
                dx == 0,
        ;
        assert((w - px) * dy > 0) by (nonlinear_arith)
            requires
                w - px > 0,
                dy > 0,
        ;
        assert((h - py) * dx == 0) by (nonlinear_arith)
            requires
                dx == 0,
        ;
        assert(px * dy > 0) by (nonlinear_arith)
            requires
                px > 0,
                dy > 0,
        ;
    } else {
        assert(dx == 0 && dy < 0);
        assert(py * dx == 0) by (nonlinear_arith)
            requires
                dx == 0,
        ;
        assert((w - px) * dy < 0) by (nonlinear_arith)
            requires
                w - px > 0,
                dy < 0,
        ;
        assert((h - py) * dx == 0) by (nonlinear_arith)
            requires
                dx == 0,
        ;
        assert(px * dy < 0) by (nonlinear_arith)
            requires
                px > 0,
                dy < 0,
        ;
    }
}

/// With only the four boundary walls present and the observer strictly
/// inside the screen, a direction that does not point exactly at a
/// corner crosses exactly one boundary wall, and the sweep therefore
/// keeps a ray for it.
pub proof fn lemma_enclosure(p: Point, d: Dir, width: i64, height: i64)
    requires
        strictly_inside(p, width, height),
        d.x != 0 || d.y != 0,
        misses_corners(p, d, width, height),
    ensures
        exists|i: int|
            0 <= i < 4 && #[trigger] valid_crossing(p, d, boundary_walls(width, height)[i]),
        forall|i: int, k: int|
            0 <= i < 4 && 0 <= k < 4 && #[trigger] valid_crossing(
                p,
                d,
                boundary_walls(width, height)[i],
            ) && #[trigger] valid_crossing(p, d, boundary_walls(width, height)[k]) ==> i == k,
        best_idx(p, d, boundary_walls(width, height)).is_some(),
{
    lemma_right_crossing(p, d, width, height);
    lemma_left_crossing(p, d, width, height);
    lemma_bottom_crossing(p, d, width, height);
    lemma_top_crossing(p, d, width, height);
    lemma_one_exit(p, d, width, height);
    let walls = boundary_walls(width, height);
    if exits_right(p, d, width, height) {
        assert(valid_crossing(p, d, walls[0]));
    } else if exits_left(p, d, width, height) {
        assert(valid_crossing(p, d, walls[1]));
    } else if exits_bottom(p, d, width, height) {
        assert(valid_crossing(p, d, walls[2]));
    } else {
        assert(valid_crossing(p, d, walls[3]));
    }
    lemma_best_is_nearest(p, d, walls);
    if best_idx(p, d, walls).is_none() {
        assert(false);
    }
}

/// With only the four boundary walls present and the observer strictly
/// inside the screen, a sweep whose directions are all nonzero and point
/// at no corner produces a full fan: exactly one ray per direction.
pub proof fn lemma_enclosure_fan_complete(p: Point, dirs: Seq<Dir>, width: i64, height: i64)
    requires
        strictly_inside(p, width, height),
        forall|i: int|
            0 <= i < dirs.len() ==> ((#[trigger] dirs[i]).x != 0 || dirs[i].y != 0)
                && misses_corners(p, dirs[i], width, height),
    ensures
        fan_spec(p, dirs, boundary_walls(width, height)).len() == dirs.len(),
    decreases dirs.len(),
{
    if dirs.len() > 0 {
        let prefix = dirs.drop_last();
        assert(forall|i: int| 0 <= i < prefix.len() ==> prefix[i] == dirs[i]);
        lemma_enclosure_fan_complete(p, prefix, width, height);
        lemma_enclosure(p, dirs.last(), width, height);
    }
}

} // verus!
