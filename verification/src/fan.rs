//! The ray-fan builder: for each sweep direction, cast against every wall
//! and keep the nearest valid crossing; directions with no crossing
//! contribute nothing. `best_idx` and `fan_spec` are the mathematical
//! model the builder is proved against.

use vstd::prelude::*;

use crate::geometry::Dir;
use crate::geometry::Point;
use crate::geometry::Wall;
use crate::geometry::closer;
use crate::geometry::den_n;
use crate::geometry::det_bound;
use crate::geometry::dir_ok;
use crate::geometry::lemma_dets_bounded;
use crate::geometry::lemma_mul_bound;
use crate::geometry::point_ok;
use crate::geometry::u_n;
use crate::geometry::valid_crossing;
use crate::geometry::wall_ok;
use crate::solver::Hit;
use crate::solver::Ray;
use crate::solver::hit_spec;
use crate::solver::ray_spec;

verus! {

pub open spec fn all_dirs_ok(s: Seq<Dir>) -> bool {
    forall|i: int| 0 <= i < s.len() ==> dir_ok(s[i])
}

pub open spec fn all_walls_ok(s: Seq<Wall>) -> bool {
    forall|i: int| 0 <= i < s.len() ==> wall_ok(s[i])
}

/// Index of the wall whose crossing the sweep keeps for direction `d`:
/// the valid crossing with the smallest distance `u`, the earliest such
/// wall winning ties; `None` when no wall has a valid crossing.
pub open spec fn best_idx(p: Point, d: Dir, walls: Seq<Wall>) -> Option<int>
    decreases walls.len(),
{
    if walls.len() == 0 {
        None
    } else {
        let i = walls.len() - 1;
        let prev = best_idx(p, d, walls.drop_last());
        if valid_crossing(p, d, walls[i as int]) {
            match prev {
                None => Some(i as int),
                Some(j) => if closer(p, d, walls[i as int], walls[j]) {
                    Some(i as int)
                } else {
                    Some(j)
                },
            }
        } else {
            prev
        }
    }
}

/// The fan one sweep produces: one ray per direction that has a valid
/// crossing, clipped to its nearest wall, in sweep order.
pub open spec fn fan_spec(p: Point, dirs: Seq<Dir>, walls: Seq<Wall>) -> Seq<Ray>
    decreases dirs.len(),
{
    if dirs.len() == 0 {
        Seq::empty()
    } else {
        let front = fan_spec(p, dirs.drop_last(), walls);
        match best_idx(p, dirs.last(), walls) {
            Some(j) => front.push(ray_spec(p, dirs.last(), walls[j])),
            None => front,
        }
    }
}

/// Sweeps every direction of `dirs` against every wall and returns the
/// fan of nearest-crossing rays.
pub fn create_rays(player: Point, dirs: &Vec<Dir>, walls: &Vec<Wall>) -> (rays: Vec<Ray>)
    requires
        point_ok(player),
        all_dirs_ok(dirs@),
        all_walls_ok(walls@),
    ensures
        rays@ == fan_spec(player, dirs@, walls@),
{
    let mut rays: Vec<Ray> = Vec::new();
    let mut a: usize = 0;
    while a < dirs.len()
        invariant
            point_ok(player),
            all_dirs_ok(dirs@),
            all_walls_ok(walls@),
            a <= dirs.len(),
            rays@ == fan_spec(player, dirs@.take(a as int), walls@),
        decreases dirs.len() - a,
    {
        let d = dirs[a];
        let mut best: Option<(Hit, Ray)> = None;
        let ghost mut best_i: int = 0;
        let mut j: usize = 0;
        while j < walls.len()
            invariant
                point_ok(player),
                dir_ok(d),
                all_walls_ok(walls@),
                j <= walls.len(),
                best.is_none() ==> best_idx(player, d, walls@.take(j as int)).is_none(),
                best.is_some() ==> {
                    &&& 0 <= best_i < j
                    &&& best_idx(player, d, walls@.take(j as int)) == Some(best_i)
                    &&& valid_crossing(player, d, walls@[best_i])
                    &&& best == Some(
                        (hit_spec(player, d, walls@[best_i]), ray_spec(player, d, walls@[best_i])),
                    )
                },
            decreases walls.len() - j,
        {
            proof {
                assert(walls@.take(j as int + 1).drop_last() =~= walls@.take(j as int));
            }
            let w = &walls[j];
            match Ray::try_new(player, w, d) {
                Some((h, ray)) => {
                    let replace: bool = match &best {
                        None => true,
                        Some((bh, _)) => {
                            proof {
                                lemma_dets_bounded(player, d, walls@[best_i]);
                                lemma_dets_bounded(player, d, walls@[j as int]);
                                lemma_mul_bound(
                                    u_n(player, d, walls@[j as int]),
                                    den_n(player, d, walls@[best_i]),
                                    det_bound(),
                                    det_bound(),
                                );
                                lemma_mul_bound(
                                    u_n(player, d, walls@[best_i]),
                                    den_n(player, d, walls@[j as int]),
                                    det_bound(),
                                    det_bound(),
                                );
                            }
                            (h.u_num as i128) * (bh.den as i128) < (bh.u_num as i128) * (h.den
                                as i128)
                        },
                    };
                    if replace {
                        best = Some((h, ray));
                        proof {
                            best_i = j as int;
                        }
                    }
                },
                None => {},
            }
            j += 1;
        }
        proof {
            assert(walls@.take(walls@.len() as int) =~= walls@);
            assert(dirs@.take(a as int + 1).drop_last() =~= dirs@.take(a as int));
        }
        match best {
            Some((_, ray)) => {
                rays.push(ray);
            },
            None => {},
        }
        a += 1;
    }
    proof {
        assert(dirs@.take(dirs@.len() as int) =~= dirs@);
    }
    rays
}

} // verus!
