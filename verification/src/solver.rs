//! The intersection solver: decides whether a ray crosses a wall and, if
//! so, produces the exact crossing as a `Hit` (the normalized parameters)
//! together with the drawable `Ray` (observer plus rational tip point).

use vstd::prelude::*;

use crate::geometry::Dir;
use crate::geometry::Point;
use crate::geometry::Wall;
use crate::geometry::can_cast_ray;
use crate::geometry::den_n;
use crate::geometry::det_bound;
use crate::geometry::dir_ok;
use crate::geometry::lemma_dets_bounded;
use crate::geometry::lemma_mul_bound;
use crate::geometry::point_ok;
use crate::geometry::t_n;
use crate::geometry::u_n;
use crate::geometry::wall_ok;

verus! {

/// A crossing in normalized form: the denominator is positive, the wall
/// parameter is `t_num / den` and the ray parameter (the distance proxy)
/// is `u_num / den`.
#[derive(Clone, Copy, PartialEq, Eq, Structural, Debug)]
pub struct Hit {
    pub t_num: i64,
    pub u_num: i64,
    pub den: i64,
}

/// An exact rational point `(x_num / den, y_num / den)` with `den > 0`.
#[derive(Clone, Copy, PartialEq, Eq, Structural, Debug)]
pub struct RatPoint {
    pub x_num: i128,
    pub y_num: i128,
    pub den: i128,
}

/// One visible ray of the fan: the observer position and the point where
/// the ray is clipped by the nearest wall.
#[derive(Clone, Copy, PartialEq, Eq, Structural, Debug)]
pub struct Ray {
    pub origin: Point,
    pub tip: RatPoint,
}

/// The `Hit` a valid crossing produces.
pub open spec fn hit_spec(p: Point, d: Dir, w: Wall) -> Hit {
    Hit {
        t_num: t_n(p, d, w) as i64,
        u_num: u_n(p, d, w) as i64,
        den: den_n(p, d, w) as i64,
    }
}

/// Numerator of the crossing point's x coordinate over `den_n`:
/// `pos1.x + t * (pos2.x - pos1.x)`, multiplied through by `den_n`.
pub open spec fn tip_x_num(p: Point, d: Dir, w: Wall) -> int {
    w.pos1.x * den_n(p, d, w) + t_n(p, d, w) * (w.pos2.x - w.pos1.x)
}

/// Numerator of the crossing point's y coordinate over `den_n`.
pub open spec fn tip_y_num(p: Point, d: Dir, w: Wall) -> int {
    w.pos1.y * den_n(p, d, w) + t_n(p, d, w) * (w.pos2.y - w.pos1.y)
}

/// The `Ray` a valid crossing produces: from the observer to the exact
/// crossing point.
pub open spec fn ray_spec(p: Point, d: Dir, w: Wall) -> Ray {
    Ray {
        origin: p,
        tip: RatPoint {
            x_num: tip_x_num(p, d, w) as i128,
            y_num: tip_y_num(p, d, w) as i128,
            den: den_n(p, d, w) as i128,
        },
    }
}

impl Ray {
    /// Solves the segment/ray system for `player`, `dir` and `wall`.
    /// Returns the crossing exactly when the ray crosses the wall strictly
    /// inside the segment and strictly ahead of the observer; a parallel
    /// direction (`den == 0`) or an out-of-policy crossing yields `None`.
    pub fn try_new(player: Point, wall: &Wall, dir: Dir) -> (r: Option<(Hit, Ray)>)
        requires
            point_ok(player),
            dir_ok(dir),
            wall_ok(*wall),
        ensures
            r.is_some() <==> crate::geometry::valid_crossing(player, dir, *wall),
            r.is_some() ==> r == Some((hit_spec(player, dir, *wall), ray_spec(player, dir, *wall))),
    {
        let x1 = wall.pos1.x;
        let y1 = wall.pos1.y;
        let x2 = wall.pos2.x;
        let y2 = wall.pos2.y;
        let x3 = player.x;
        let y3 = player.y;
        let dx = dir.x;
        let dy = dir.y;

        proof {
            lemma_dets_bounded(player, dir, *wall);
            lemma_mul_bound(y1 - y2, dx as int, 0x200000, 0x100000);
            lemma_mul_bound(x1 - x2, dy as int, 0x200000, 0x100000);
            lemma_mul_bound(y1 - y3, dx as int, 0x200000, 0x100000);
            lemma_mul_bound(x1 - x3, dy as int, 0x200000, 0x100000);
            lemma_mul_bound(x1 - x2, y1 - y3, 0x200000, 0x200000);
            lemma_mul_bound(y1 - y2, x1 - x3, 0x200000, 0x200000);
        }

        let den: i64 = (y1 - y2) * dx - (x1 - x2) * dy;
        if den == 0 {
            return None;
        }
        let t_num: i64 = (y1 - y3) * dx - (x1 - x3) * dy;
        let u_num: i64 = -((x1 - x2) * (y1 - y3) - (y1 - y2) * (x1 - x3));

        let (t, u, den) = if den < 0 {
            (-t_num, -u_num, -den)
        } else {
            (t_num, u_num, den)
        };

        if can_cast_ray(t, u, den) {
            proof {
                lemma_mul_bound(x1 as int, den as int, 0x100000, det_bound());
                lemma_mul_bound(y1 as int, den as int, 0x100000, det_bound());
                lemma_mul_bound(t as int, x2 - x1, det_bound(), 0x200000);
                lemma_mul_bound(t as int, y2 - y1, det_bound(), 0x200000);
            }
            let tip_x: i128 = (x1 as i128) * (den as i128) + (t as i128) * ((x2 - x1) as i128);
            let tip_y: i128 = (y1 as i128) * (den as i128) + (t as i128) * ((y2 - y1) as i128);
            let hit = Hit { t_num: t, u_num: u, den };
            let ray = Ray {
                origin: player,
                tip: RatPoint { x_num: tip_x, y_num: tip_y, den: den as i128 },
            };
            Some((hit, ray))
        } else {
            None
        }
    }
}

} // verus!
