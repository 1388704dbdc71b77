//! The geometric guarantees of the engine, stated and proved once over
//! the spec-level model: parallel rays never cross, the open-interval
//! policy rejects endpoint and zero-distance crossings, the builder keeps
//! the nearest crossing whatever the wall order, and the fan is bounded
//! by the sweep and never pads a missing crossing.

use vstd::prelude::*;

use crate::geometry::Dir;
use crate::geometry::Point;
use crate::geometry::Wall;
use crate::geometry::closer;
use crate::geometry::den_n;
use crate::geometry::den_spec;
use crate::geometry::t_num_spec;
use crate::geometry::u_n;
use crate::geometry::u_num_spec;
use crate::geometry::valid_crossing;
use crate::fan::best_idx;
use crate::fan::fan_spec;
use crate::solver::Ray;
use crate::solver::ray_spec;

verus! {

/// A ray direction exactly parallel to a wall (the cross product of the
/// direction and the wall's extent vector vanishes) yields no crossing.
pub proof fn lemma_parallel_no_crossing(p: Point, d: Dir, w: Wall)
    requires
        d.x * (w.pos2.y - w.pos1.y) == d.y * (w.pos2.x - w.pos1.x),
    ensures
        !valid_crossing(p, d, w),
{
    assert((w.pos1.y - w.pos2.y) * d.x - (w.pos1.x - w.pos2.x) * d.y == 0) by (nonlinear_arith)
        requires
            d.x * (w.pos2.y - w.pos1.y) == d.y * (w.pos2.x - w.pos1.x),
    ;
}

/// The open-interval policy: a crossing that falls exactly on a wall
/// endpoint (`t == 0` or `t == 1`, i.e. `t_num == den`) or exactly at the
/// observer (`u == 0`) is rejected.
pub proof fn lemma_open_interval_excluded(p: Point, d: Dir, w: Wall)
    requires
        t_num_spec(p, d, w) == 0 || t_num_spec(p, d, w) == den_spec(p, d, w) || u_num_spec(
            p,
            d,
            w,
        ) == 0,
    ensures
        !valid_crossing(p, d, w),
{
}

/// Multiplicative transitivity for distance fractions with positive
/// denominators: `ui/di >= uj/dj` and `ul/dl > uj/dj` give
/// `ui/di > ul/dl` ... cross-multiplied.
proof fn lemma_closer_trans(ui: int, di: int, uj: int, dj: int, ul: int, dl: int)
    requires
        di > 0,
        dj > 0,
        dl > 0,
        ui * dj >= uj * di,
        ul * dj < uj * dl,
    ensures
        ui * dl > ul * di,
{
    assert(ui * dl > ul * di) by (nonlinear_arith)
        requires
            di > 0,
            dj > 0,
            dl > 0,
            ui * dj >= uj * di,
            ul * dj < uj * dl,
    ;
}

/// What the builder's selection means: when `best_idx` picks a wall, that
/// wall has a valid crossing and no wall in the list crosses strictly
/// nearer; when it picks none, no wall has a valid crossing.
pub proof fn lemma_best_is_nearest(p: Point, d: Dir, walls: Seq<Wall>)
    ensures
        match best_idx(p, d, walls) {
            Some(j) => {
                &&& 0 <= j < walls.len()
                &&& valid_crossing(p, d, walls[j])
                &&& forall|i: int|
                    0 <= i < walls.len() && valid_crossing(p, d, walls[i]) ==> !closer(
                        p,
                        d,
                        walls[i],
                        walls[j],
                    )
            },
            None => forall|i: int| 0 <= i < walls.len() ==> !valid_crossing(p, d, walls[i]),
        },
    decreases walls.len(),
{
    if walls.len() == 0 {
    } else {
        let prefix = walls.drop_last();
        let l = walls.len() - 1;
        lemma_best_is_nearest(p, d, prefix);
        assert(forall|i: int| 0 <= i < prefix.len() ==> prefix[i] == walls[i]);
        if valid_crossing(p, d, walls[l as int]) {
            match best_idx(p, d, prefix) {
                None => {},
                Some(j) => {
                    if closer(p, d, walls[l as int], walls[j]) {
                        assert forall|i: int|
                            0 <= i < walls.len() && valid_crossing(p, d, walls[i]) implies !closer(
                            p,
                            d,
                            walls[i],
                            walls[l as int],
                        ) by {
                            if i < l {
                                lemma_closer_trans(
                                    u_n(p, d, walls[i]),
                                    den_n(p, d, walls[i]),
                                    u_n(p, d, walls[j]),
                                    den_n(p, d, walls[j]),
                                    u_n(p, d, walls[l as int]),
                                    den_n(p, d, walls[l as int]),
                                );
                            }
                        }
                    }
                },
            }
        }
    }
}

/// Given two walls both crossed by the same direction, the builder keeps
/// the crossing with the strictly smaller distance, whichever order the
/// walls are listed in.
pub proof fn lemma_nearest_wins(p: Point, d: Dir, w1: Wall, w2: Wall)
    requires
        valid_crossing(p, d, w1),
        valid_crossing(p, d, w2),
        closer(p, d, w1, w2),
    ensures
        best_idx(p, d, seq![w1, w2]) == Some(0int),
        best_idx(p, d, seq![w2, w1]) == Some(1int),
{
    let a = seq![w1, w2];
    lemma_best_is_nearest(p, d, a);
    match best_idx(p, d, a) {
        None => {
            assert(valid_crossing(p, d, a[0]));
            assert(false);
        },
        Some(j) => {
            if j == 1 {
                assert(!closer(p, d, a[0], a[1]));
                assert(false);
            }
        },
    }
    let b = seq![w2, w1];
    lemma_best_is_nearest(p, d, b);
    match best_idx(p, d, b) {
        None => {
            assert(valid_crossing(p, d, b[1]));
            assert(false);
        },
        Some(j) => {
            if j == 0 {
                assert(!closer(p, d, b[1], b[0]));
                assert(false);
            }
        },
    }
}

/// A ray that is the nearest valid crossing of some direction of `dirs`
/// with some wall of `walls`.
pub open spec fn from_some_crossing(p: Point, dirs: Seq<Dir>, walls: Seq<Wall>, r: Ray) -> bool {
    exists|i: int, j: int|
        {
            &&& 0 <= i < dirs.len()
            &&& 0 <= j < walls.len()
            &&& valid_crossing(p, dirs[i], walls[j])
            &&& r == #[trigger] ray_spec(p, dirs[i], walls[j])
        }
}

proof fn lemma_crossing_weaken(p: Point, dirs: Seq<Dir>, walls: Seq<Wall>, r: Ray)
    requires
        dirs.len() > 0,
        from_some_crossing(p, dirs.drop_last(), walls, r),
    ensures
        from_some_crossing(p, dirs, walls, r),
{
    let prefix = dirs.drop_last();
    let (i, j): (int, int) = choose|i: int, j: int|
        {
            &&& 0 <= i < prefix.len()
            &&& 0 <= j < walls.len()
            &&& valid_crossing(p, prefix[i], walls[j])
            &&& r == #[trigger] ray_spec(p, prefix[i], walls[j])
        };
    assert(prefix[i] == dirs[i]);
    assert(r == ray_spec(p, dirs[i], walls[j]));
}

/// The fan never holds more rays than the sweep has directions, and every
/// ray in it is the nearest crossing of some sweep direction with some
/// wall that the direction validly crosses: no ray is padded in for a
/// direction that hits nothing.
pub proof fn lemma_fan_bounded(p: Point, dirs: Seq<Dir>, walls: Seq<Wall>)
    ensures
        fan_spec(p, dirs, walls).len() <= dirs.len(),
        forall|k: int|
            0 <= k < fan_spec(p, dirs, walls).len() ==> from_some_crossing(
                p,
                dirs,
                walls,
                #[trigger] fan_spec(p, dirs, walls)[k],
            ),
    decreases dirs.len(),
{
    if dirs.len() == 0 {
    } else {
        let prefix = dirs.drop_last();
        let front = fan_spec(p, prefix, walls);
        let fan = fan_spec(p, dirs, walls);
        let l = dirs.len() - 1;
        lemma_fan_bounded(p, prefix, walls);
        lemma_best_is_nearest(p, dirs.last(), walls);
        assert forall|k: int| 0 <= k < fan.len() implies from_some_crossing(
            p,
            dirs,
            walls,
            #[trigger] fan[k],
        ) by {
            if k < front.len() {
                assert(from_some_crossing(p, prefix, walls, front[k]));
                assert(fan[k] == front[k]);
                lemma_crossing_weaken(p, dirs, walls, fan[k]);
            } else {
                let j = best_idx(p, dirs.last(), walls)->Some_0;
                assert(valid_crossing(p, dirs[l as int], walls[j]));
                assert(fan[k] == ray_spec(p, dirs[l as int], walls[j]));
            }
        }
    }
}

} // verus!
