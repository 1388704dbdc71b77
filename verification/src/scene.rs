//! Scene state: the movable observer, the four boundary walls, the fixed
//! interior obstacles and the cached ray-fan. The boundary is kept apart
//! from the interior walls, so a resize replaces exactly the boundary and
//! touches nothing else.

use vstd::prelude::*;

use crate::geometry::Dir;
use crate::geometry::MAX_COORD;
use crate::geometry::Point;
use crate::geometry::Wall;
use crate::geometry::coord_ok;
use crate::geometry::point_ok;
use crate::geometry::wall_ok;
use crate::fan::all_dirs_ok;
use crate::fan::all_walls_ok;
use crate::fan::create_rays;
use crate::fan::fan_spec;
use crate::solver::Ray;

verus! {

/// Number of randomly placed interior walls a new scene receives.
pub const NUM_INTERIOR_WALLS: usize = 6;

/// Inset from each screen edge inside which random wall endpoints are
/// drawn, so interior obstacles stay away from the boundary.
pub const WALL_MARGIN: i64 = 50;

/// Draws one coordinate uniformly from the half-open range `lo..hi`.
/// Relies on rand::Rng::gen_range on the thread-local generator: the
/// drawn value lies within the given range, and the call panics only on
/// an empty range, which the precondition excludes.
#[verifier::external_body]
fn random_in(lo: i64, hi: i64) -> (r: i64)
    requires
        lo < hi,
    ensures
        lo <= r && r < hi,
{
    rand::Rng::gen_range(&mut rand::thread_rng(), lo..hi)
}

/// A random endpoint coordinate lies at least `WALL_MARGIN` inside both
/// edges of a screen of extent `limit`.
pub open spec fn inset_ok(c: i64, limit: i64) -> bool {
    WALL_MARGIN <= c && c < limit - WALL_MARGIN
}

/// Both endpoints of an interior wall lie within the margin-inset screen.
pub open spec fn interior_wall_ok(w: Wall, width: i64, height: i64) -> bool {
    &&& inset_ok(w.pos1.x, width)
    &&& inset_ok(w.pos1.y, height)
    &&& inset_ok(w.pos2.x, width)
    &&& inset_ok(w.pos2.y, height)
}

/// The four boundary walls of a `width` by `height` screen, in the order
/// the scene keeps them.
pub open spec fn boundary_walls(width: i64, height: i64) -> Seq<Wall> {
    seq![
        (Wall {
            pos1: (Point { x: width, y: 0 }),
            pos2: (Point { x: width, y: height }),
        }),
        (Wall { pos1: (Point { x: 0, y: 0 }), pos2: (Point { x: 0, y: height }) }),
        (Wall {
            pos1: (Point { x: 0, y: height }),
            pos2: (Point { x: width, y: height }),
        }),
        (Wall { pos1: (Point { x: 0, y: 0 }), pos2: (Point { x: width, y: 0 }) }),
    ]
}

impl Wall {
    /// A wall between the two given endpoints.
    pub fn new(x1: i64, y1: i64, x2: i64, y2: i64) -> (r: Wall)
        ensures
            r == (Wall {
                pos1: (Point { x: x1, y: y1 }),
                pos2: (Point { x: x2, y: y2 }),
            }),
    {
        Wall { pos1: Point { x: x1, y: y1 }, pos2: Point { x: x2, y: y2 } }
    }

    /// A wall with both endpoints drawn independently and uniformly from
    /// the margin-inset screen rectangle.
    pub fn random(width: i64, height: i64) -> (r: Wall)
        requires
            2 * WALL_MARGIN < width && width <= MAX_COORD,
            2 * WALL_MARGIN < height && height <= MAX_COORD,
        ensures
            wall_ok(r),
            interior_wall_ok(r, width, height),
    {
        let x1 = random_in(WALL_MARGIN, width - WALL_MARGIN);
        let y1 = random_in(WALL_MARGIN, height - WALL_MARGIN);
        let x2 = random_in(WALL_MARGIN, width - WALL_MARGIN);
        let y2 = random_in(WALL_MARGIN, height - WALL_MARGIN);
        Wall::new(x1, y1, x2, y2)
    }
}

/// Builds the four boundary walls for a `width` by `height` screen.
pub fn make_boundary(width: i64, height: i64) -> (r: Vec<Wall>)
    requires
        0 <= width && width <= MAX_COORD,
        0 <= height && height <= MAX_COORD,
    ensures
        r@ == boundary_walls(width, height),
        r@.len() == 4,
        all_walls_ok(r@),
{
    let mut r: Vec<Wall> = Vec::new();
    r.push(Wall::new(width, 0, width, height));
    r.push(Wall::new(0, 0, 0, height));
    r.push(Wall::new(0, height, width, height));
    r.push(Wall::new(0, 0, width, 0));
    proof {
        assert(r@ =~= boundary_walls(width, height));
        assert forall|i: int| 0 <= i < r@.len() implies wall_ok(r@[i]) by {
            assert(0 <= i < 4);
        }
    }
    r
}

/// The observer that emits the ray fan.
#[derive(Clone, Copy, PartialEq, Eq, Structural, Debug)]
pub struct Player {
    pub pos: Point,
}

impl Player {
    /// An observer standing at `(x, y)`.
    pub fn new(x: i64, y: i64) -> (r: Player)
        ensures
            r.pos == (Point { x, y }),
    {
        Player { pos: Point { x, y } }
    }

    /// Moves the observer to `(x, y)` unconditionally; it may sit on or
    /// outside any wall.
    pub fn set_pos(&mut self, x: i64, y: i64)
        ensures
            final(self).pos == (Point { x, y }),
    {
        self.pos.x = x;
        self.pos.y = y;
    }
}

/// The whole scene: observer, boundary walls, interior walls, the sweep
/// directions and the ray-fan last computed by `tick`.
#[derive(Debug)]
pub struct GameState {
    pub player: Player,
    pub boundary: Vec<Wall>,
    pub interior: Vec<Wall>,
    pub dirs: Vec<Dir>,
    pub rays: Vec<Ray>,
}

impl GameState {
    /// Every coordinate in the scene is in range and the boundary holds
    /// exactly four walls.
    pub open spec fn wf(self) -> bool {
        &&& point_ok(self.player.pos)
        &&& self.boundary@.len() == 4
        &&& all_walls_ok(self.boundary@)
        &&& all_walls_ok(self.interior@)
        &&& all_dirs_ok(self.dirs@)
    }

    /// The full wall list, boundary walls first.
    pub open spec fn walls_seq(self) -> Seq<Wall> {
        self.boundary@ + self.interior@
    }

    proof fn lemma_walls_seq_ok(self)
        requires
            self.wf(),
        ensures
            all_walls_ok(self.walls_seq()),
    {
        let s = self.walls_seq();
        assert forall|i: int| 0 <= i < s.len() implies wall_ok(s[i]) by {
            if i < self.boundary@.len() {
                assert(s[i] == self.boundary@[i]);
            } else {
                assert(s[i] == self.interior@[i - self.boundary@.len()]);
            }
        }
    }

    /// A fresh scene for a `width` by `height` screen: observer at the
    /// center, four boundary walls, `NUM_INTERIOR_WALLS` random interior
    /// walls, and the initial ray-fan already computed over the given
    /// sweep directions.
    pub fn new(width: i64, height: i64, dirs: Vec<Dir>) -> (r: GameState)
        requires
            2 * WALL_MARGIN < width && width <= MAX_COORD,
            2 * WALL_MARGIN < height && height <= MAX_COORD,
            all_dirs_ok(dirs@),
        ensures
            r.wf(),
            r.player.pos.x == width / 2 && r.player.pos.y == height / 2,
            r.boundary@ == boundary_walls(width, height),
            r.interior@.len() == NUM_INTERIOR_WALLS,
            forall|i: int|
                0 <= i < r.interior@.len() ==> interior_wall_ok(r.interior@[i], width, height),
            r.dirs@ == dirs@,
            r.rays@ == fan_spec(r.player.pos, dirs@, r.walls_seq()),
    {
        let player = Player::new(width / 2, height / 2);
        let boundary = make_boundary(width, height);
        let mut interior: Vec<Wall> = Vec::new();
        let mut k: usize = 0;
        while k < NUM_INTERIOR_WALLS
            invariant
                2 * WALL_MARGIN < width && width <= MAX_COORD,
                2 * WALL_MARGIN < height && height <= MAX_COORD,
                k <= NUM_INTERIOR_WALLS,
                interior@.len() == k,
                all_walls_ok(interior@),
                forall|i: int|
                    0 <= i < interior@.len() ==> interior_wall_ok(
                        interior@[i],
                        width,
                        height,
                    ),
            decreases NUM_INTERIOR_WALLS - k,
        {
            interior.push(Wall::random(width, height));
            k += 1;
        }
        let mut state = GameState { player, boundary, interior, dirs, rays: Vec::new() };
        state.tick();
        state
    }

    /// Recomputes the ray-fan from the current observer and walls; every
    /// other part of the scene is untouched.
    pub fn tick(&mut self)
        requires
            old(self).wf(),
        ensures
            final(self).wf(),
            final(self).player == old(self).player,
            final(self).boundary == old(self).boundary,
            final(self).interior == old(self).interior,
            final(self).dirs == old(self).dirs,
            final(self).rays@ == fan_spec(
                old(self).player.pos,
                old(self).dirs@,
                old(self).walls_seq(),
            ),
    {
        proof {
            old(self).lemma_walls_seq_ok();
        }
        let walls = self.walls();
        let rays = create_rays(self.player.pos, &self.dirs, &walls);
        self.rays = rays;
    }

    /// Moves the observer to `(x, y)`. The cached fan is left as it is;
    /// the next `tick` rebuilds it.
    pub fn set_observer_position(&mut self, x: i64, y: i64)
        requires
            old(self).wf(),
            coord_ok(x),
            coord_ok(y),
        ensures
            final(self).wf(),
            final(self).player.pos == (Point { x, y }),
            final(self).boundary == old(self).boundary,
            final(self).interior == old(self).interior,
            final(self).dirs == old(self).dirs,
            final(self).rays == old(self).rays,
    {
        self.player.set_pos(x, y);
    }

    /// Replaces the four boundary walls to match a new screen size; the
    /// interior walls, the observer and the cached fan are untouched.
    pub fn resize(&mut self, width: i64, height: i64)
        requires
            old(self).wf(),
            0 <= width && width <= MAX_COORD,
            0 <= height && height <= MAX_COORD,
        ensures
            final(self).wf(),
            final(self).boundary@ == boundary_walls(width, height),
            final(self).interior == old(self).interior,
            final(self).player == old(self).player,
            final(self).dirs == old(self).dirs,
            final(self).rays == old(self).rays,
    {
        self.boundary = make_boundary(width, height);
    }

    /// The current observer position.
    pub fn observer(&self) -> (r: Point)
        ensures
            r == self.player.pos,
    {
        self.player.pos
    }

    /// The full wall list, boundary walls first, for rendering and for
    /// the fan builder.
    pub fn walls(&self) -> (r: Vec<Wall>)
        ensures
            r@ == self.walls_seq(),
    {
        let mut r: Vec<Wall> = Vec::new();
        let mut i: usize = 0;
        while i < self.boundary.len()
            invariant
                i <= self.boundary.len(),
                r@ == self.boundary@.take(i as int),
            decreases self.boundary.len() - i,
        {
            r.push(self.boundary[i]);
            proof {
                assert(r@ =~= self.boundary@.take(i as int + 1));
            }
            i += 1;
        }
        proof {
            assert(self.boundary@.take(self.boundary@.len() as int) =~= self.boundary@);
            assert(self.boundary@ + self.interior@.take(0) =~= self.boundary@);
        }
        let mut j: usize = 0;
        while j < self.interior.len()
            invariant
                j <= self.interior.len(),
                r@ == self.boundary@ + self.interior@.take(j as int),
            decreases self.interior.len() - j,
        {
            r.push(self.interior[j]);
            proof {
                assert(r@ =~= self.boundary@ + self.interior@.take(j as int + 1));
            }
            j += 1;
        }
        proof {
            assert(self.boundary@ + self.interior@.take(self.interior@.len() as int) =~= self.walls_seq());
        }
        r
    }

    /// The ray-fan computed by the last `tick`.
    pub fn rays(&self) -> (r: &Vec<Ray>)
        ensures
            r@ == self.rays@,
    {
        &self.rays
    }
}

} // verus!
