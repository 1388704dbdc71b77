use raycast::geometry::can_cast_ray;
use raycast::geometry::Dir;
use raycast::geometry::Point;
use raycast::geometry::Wall;
use raycast::fan::create_rays;
use raycast::scene::make_boundary;
use raycast::solver::Ray;

fn pt(x: i64, y: i64) -> Point {
    Point { x, y }
}

fn dir(x: i64, y: i64) -> Dir {
    Dir { x, y }
}

fn wall(x1: i64, y1: i64, x2: i64, y2: i64) -> Wall {
    Wall {
        pos1: pt(x1, y1),
        pos2: pt(x2, y2),
    }
}

#[test]
fn acceptance_policy_is_open_interval() {
    // 0 < t < den and u > 0, on normalized (den > 0) parameters
    assert!(can_cast_ray(1, 1, 2));
    assert!(!can_cast_ray(0, 1, 2)); // t == 0
    assert!(!can_cast_ray(2, 1, 2)); // t == 1
    assert!(!can_cast_ray(1, 0, 2)); // u == 0
    assert!(!can_cast_ray(-1, 1, 2)); // t < 0
    assert!(!can_cast_ray(1, -1, 2)); // u < 0
}

#[test]
fn parallel_direction_yields_no_crossing() {
    // vertical wall, vertical ray: exactly parallel
    let w = wall(100, 0, 100, 50);
    assert!(Ray::try_new(pt(0, 0), &w, dir(0, 1)).is_none());
    // horizontal wall, horizontal ray
    let w2 = wall(0, 30, 90, 30);
    assert!(Ray::try_new(pt(5, 5), &w2, dir(1, 0)).is_none());
}

#[test]
fn endpoint_aimed_ray_is_rejected() {
    // ray from the origin straight at the endpoint (5, 5): t == 0
    let w = wall(5, 5, 10, 5);
    assert!(Ray::try_new(pt(0, 0), &w, dir(1, 1)).is_none());
    // and straight at the other endpoint (10, 5): t == 1
    assert!(Ray::try_new(pt(0, 0), &w, dir(2, 1)).is_none());
    // but a ray through the middle of the wall crosses it
    assert!(Ray::try_new(pt(7, 0), &w, dir(0, 1)).is_some());
}

#[test]
fn crossing_at_the_observer_is_rejected() {
    // the observer sits on the wall itself: u == 0
    let w = wall(0, 0, 10, 10);
    assert!(Ray::try_new(pt(5, 5), &w, dir(1, 0)).is_none());
}

#[test]
fn crossing_behind_the_observer_is_rejected() {
    let w = wall(100, -50, 100, 50);
    // walking away from the wall: the crossing has u < 0
    assert!(Ray::try_new(pt(200, 0), &w, dir(1, 0)).is_none());
    // turned around, it crosses
    assert!(Ray::try_new(pt(200, 0), &w, dir(-1, 0)).is_some());
}

#[test]
fn crossing_values_are_exact() {
    // observer at (480, 320), direction (0, 1), bottom wall of a
    // 960 x 640 screen: crossing at (480, 640), distance u == 320
    let w = wall(0, 640, 960, 640);
    let (hit, ray) = Ray::try_new(pt(480, 320), &w, dir(0, 1)).unwrap();
    assert!(hit.den > 0);
    assert_eq!(hit.u_num, 320 * hit.den);
    assert_eq!(2 * hit.t_num, hit.den); // t == 1/2
    assert_eq!(ray.origin, pt(480, 320));
    assert!(ray.tip.den > 0);
    assert_eq!(ray.tip.x_num, 480 * ray.tip.den);
    assert_eq!(ray.tip.y_num, 640 * ray.tip.den);
}

#[test]
fn sweep_example_hits_bottom_then_top() {
    // boundary rectangle (0,0)-(960,0)-(960,640)-(0,640), observer at the
    // center; angle 0 gives direction (sin 0, cos 0) == (0, 1) and must
    // hit the bottom wall at (480, 640) with u == 320; angle 180 gives
    // (0, -1) and must hit the top wall at (480, 0) with u == 320
    let walls = make_boundary(960, 640);
    let p = pt(480, 320);
    let fan = create_rays(p, &vec![dir(0, 1), dir(0, -1)], &walls);
    assert_eq!(fan.len(), 2);
    let down = fan[0];
    assert_eq!(down.origin, p);
    assert_eq!(down.tip.x_num, 480 * down.tip.den);
    assert_eq!(down.tip.y_num, 640 * down.tip.den);
    let up = fan[1];
    assert_eq!(up.tip.x_num, 480 * up.tip.den);
    assert_eq!(up.tip.y_num, 0);
    // the distances themselves, through the solver
    let (hd, _) = Ray::try_new(p, &walls[2], dir(0, 1)).unwrap();
    assert_eq!(hd.u_num, 320 * hd.den);
    let (hu, _) = Ray::try_new(p, &walls[3], dir(0, -1)).unwrap();
    assert_eq!(hu.u_num, 320 * hu.den);
}

#[test]
fn nearest_wall_wins_in_either_order() {
    // two vertical walls across the same ray; the nearer one (x == 5)
    // must win whatever the list order
    let near = wall(5, -10, 5, 10);
    let far = wall(8, -10, 8, 10);
    let p = pt(0, 0);
    let d = vec![dir(1, 0)];
    let fan_a = create_rays(p, &d, &vec![near, far]);
    let fan_b = create_rays(p, &d, &vec![far, near]);
    assert_eq!(fan_a.len(), 1);
    assert_eq!(fan_a, fan_b);
    assert_eq!(fan_a[0].tip.x_num, 5 * fan_a[0].tip.den);
    assert_eq!(fan_a[0].tip.y_num, 0);
}

#[test]
fn fan_is_sparse_and_bounded() {
    // no walls: no direction contributes a ray
    let p = pt(0, 0);
    let dirs = vec![dir(1, 0), dir(0, 1), dir(-1, 0)];
    assert_eq!(create_rays(p, &dirs, &vec![]).len(), 0);
    // one wall only ahead of one direction: one ray for three directions
    let w = wall(10, -5, 10, 5);
    let fan = create_rays(p, &dirs, &vec![w]);
    assert_eq!(fan.len(), 1);
}

#[test]
fn enclosed_observer_sees_every_direction() {
    // only the four boundary walls, observer strictly inside, directions
    // that point at no corner: every direction yields exactly one ray
    let walls = make_boundary(960, 640);
    let p = pt(480, 320);
    let dirs = vec![
        dir(0, 1),
        dir(0, -1),
        dir(1, 0),
        dir(-1, 0),
        dir(1, 2),
        dir(-2, 1),
        dir(5, -3),
        dir(-4, -7),
    ];
    let fan = create_rays(p, &dirs, &walls);
    assert_eq!(fan.len(), dirs.len());
}
