use raycast::geometry::Dir;
use raycast::geometry::Point;
use raycast::geometry::Wall;
use raycast::scene::make_boundary;
use raycast::scene::GameState;
use raycast::scene::Player;
use raycast::scene::NUM_INTERIOR_WALLS;

fn sweep() -> Vec<Dir> {
    vec![
        Dir { x: 0, y: 1 },
        Dir { x: 1, y: 0 },
        Dir { x: 0, y: -1 },
        Dir { x: -1, y: 0 },
    ]
}

#[test]
fn player_moves_unconditionally() {
    let mut p = Player::new(3, 4);
    assert_eq!(p.pos, Point { x: 3, y: 4 });
    p.set_pos(-10, 2000000); // outside any wall: still accepted
    assert_eq!(p.pos, Point { x: -10, y: 2000000 });
}

#[test]
fn boundary_is_four_walls_of_the_screen() {
    let b = make_boundary(960, 640);
    assert_eq!(b.len(), 4);
    assert_eq!(
        b[0],
        Wall { pos1: Point { x: 960, y: 0 }, pos2: Point { x: 960, y: 640 } }
    );
    assert_eq!(
        b[1],
        Wall { pos1: Point { x: 0, y: 0 }, pos2: Point { x: 0, y: 640 } }
    );
    assert_eq!(
        b[2],
        Wall { pos1: Point { x: 0, y: 640 }, pos2: Point { x: 960, y: 640 } }
    );
    assert_eq!(
        b[3],
        Wall { pos1: Point { x: 0, y: 0 }, pos2: Point { x: 960, y: 0 } }
    );
}

#[test]
fn random_walls_stay_inside_the_margin() {
    for _ in 0..100 {
        let w = Wall::random(960, 640);
        for p in [w.pos1, w.pos2] {
            assert!(50 <= p.x && p.x < 960 - 50);
            assert!(50 <= p.y && p.y < 640 - 50);
        }
    }
}

#[test]
fn new_scene_is_centered_and_populated() {
    let s = GameState::new(960, 640, sweep());
    assert_eq!(s.observer(), Point { x: 480, y: 320 });
    assert_eq!(s.boundary.len(), 4);
    assert_eq!(s.interior.len(), NUM_INTERIOR_WALLS);
    assert_eq!(s.walls().len(), 4 + NUM_INTERIOR_WALLS);
    // the initial fan is already built, one ray per direction at most
    assert!(s.rays().len() <= 4);
}

#[test]
fn resize_replaces_only_the_boundary() {
    let mut s = GameState::new(960, 640, sweep());
    let interior_before = s.interior.clone();
    let observer_before = s.observer();
    s.resize(800, 600);
    assert_eq!(s.interior, interior_before);
    assert_eq!(s.observer(), observer_before);
    assert_eq!(s.boundary.len(), 4);
    assert_eq!(
        s.boundary[0],
        Wall { pos1: Point { x: 800, y: 0 }, pos2: Point { x: 800, y: 600 } }
    );
    assert_eq!(
        s.boundary[2],
        Wall { pos1: Point { x: 0, y: 600 }, pos2: Point { x: 800, y: 600 } }
    );
}

#[test]
fn tick_recomputes_the_fan_from_fresh_state() {
    let mut s = GameState::new(960, 640, sweep());
    s.set_observer_position(480, 320);
    s.tick();
    let fan_before = s.rays().clone();
    // moving the observer leaves the fan stale until the next tick
    s.set_observer_position(100, 100);
    assert_eq!(s.rays(), &fan_before);
    s.tick();
    for ray in s.rays() {
        assert_eq!(ray.origin, Point { x: 100, y: 100 });
    }
}

#[test]
fn observer_moves_do_not_touch_walls() {
    let mut s = GameState::new(960, 640, sweep());
    let walls_before = s.walls();
    s.set_observer_position(12, 34);
    assert_eq!(s.observer(), Point { x: 12, y: 34 });
    assert_eq!(s.walls(), walls_before);
}

#[test]
fn largest_scene_is_supported() {
    // the full coordinate range: determinants and comparisons stay exact
    let m = 1048576; // MAX_COORD
    let s = GameState::new(m, m, sweep());
    assert_eq!(s.observer(), Point { x: m / 2, y: m / 2 });
    // the boundary encloses the centered observer, so all four axis
    // directions keep a ray whatever the interior walls are
    assert_eq!(s.rays().len(), 4);
}
