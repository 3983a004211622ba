use relativistic_ray_tracing::fraction::Fraction;
use relativistic_ray_tracing::obstacle::{CollisionPoint, Obstacle, Position, QUARTER_TURN};
use relativistic_ray_tracing::ray::{Ray, Status, Step};
use relativistic_ray_tracing::space::Space;

fn at(radius: i64) -> Position {
    Position { radius, polar: QUARTER_TURN, altitude: 0 }
}

fn moved(radius: i64) -> Step {
    Step { position: Some(at(radius)), tests: Vec::new() }
}

fn lost() -> Step {
    Step { position: None, tests: Vec::new() }
}

fn horizon_only() -> Space {
    Space { obstacles: vec![Obstacle::BlackHole { r: 100 }] }
}

fn start_hit() -> CollisionPoint {
    CollisionPoint { obstacle: 0, at: Fraction { num: 0, den: 1 } }
}

#[test]
fn new_ray_rests_at_the_origin() {
    let ray = Ray::new();
    assert_eq!(ray.position, Position { radius: 0, polar: 0, altitude: 0 });
    assert_eq!(ray.steps, 0);
    assert_eq!(ray.status, Status::Stepping);
}

#[test]
fn initialised_ray_starts_where_it_is_put() {
    let ray = Ray::new_i(&at(600));
    assert_eq!(ray.position, at(600));
    assert_eq!(ray.steps, 0);
    assert_eq!(ray.status, Status::Stepping);
}

#[test]
fn ray_wants_steps_while_it_has_some_left() {
    let mut ray = Ray::new_i(&at(600));
    assert!(ray.wants_step(1));
    assert!(!ray.wants_step(0));
    assert!(!ray.wants_step(-3));
    ray.steps = 7;
    assert!(ray.wants_step(8));
    assert!(!ray.wants_step(7));
    ray.status = Status::Diverged;
    assert!(!ray.wants_step(8));
}

#[test]
fn step_in_the_open_moves_the_ray() {
    let space = horizon_only();
    let mut ray = Ray::new_i(&at(600));
    assert_eq!(ray.next_step(&space, 10, &moved(590)), None);
    assert_eq!(ray, Ray { position: at(590), steps: 1, status: Status::Stepping });
}

#[test]
fn step_into_the_horizon_ends_the_trace() {
    let space = horizon_only();
    let mut ray = Ray::new_i(&at(110));
    assert_eq!(ray.next_step(&space, 10, &moved(95)), Some(start_hit()));
    assert_eq!(
        ray,
        Ray { position: at(95), steps: 1, status: Status::Collided(start_hit()) }
    );
}

#[test]
fn step_without_finite_position_makes_the_ray_diverge() {
    let space = horizon_only();
    let mut ray = Ray::new_i(&at(110));
    assert_eq!(ray.next_step(&space, 10, &lost()), None);
    assert_eq!(ray, Ray { position: at(110), steps: 1, status: Status::Diverged });
}

#[test]
fn last_step_in_the_open_lets_the_ray_escape() {
    let space = horizon_only();
    let mut ray = Ray::new_i(&at(600));
    assert_eq!(ray.next_step(&space, 2, &moved(610)), None);
    assert_eq!(ray.status, Status::Stepping);
    assert_eq!(ray.next_step(&space, 2, &moved(620)), None);
    assert_eq!(ray, Ray { position: at(620), steps: 2, status: Status::Escaped });
}

#[test]
fn collision_on_the_last_step_is_a_collision() {
    let space = horizon_only();
    let mut ray = Ray::new_i(&at(110));
    assert_eq!(ray.next_step(&space, 1, &moved(100)), Some(start_hit()));
    assert_eq!(ray.status, Status::Collided(start_hit()));
}

#[test]
fn ray_without_steps_escapes_where_it_is() {
    let space = horizon_only();
    let mut ray = Ray::new_i(&at(600));
    assert_eq!(ray.next_step(&space, 0, &moved(50)), None);
    assert_eq!(ray, Ray { position: at(600), steps: 0, status: Status::Escaped });
    let mut ray = Ray::new_i(&at(600));
    assert_eq!(ray.trace(&space, -1, &Vec::new()), None);
    assert_eq!(ray, Ray { position: at(600), steps: 0, status: Status::Escaped });
}

#[test]
fn ended_trace_takes_no_further_step() {
    let space = horizon_only();
    let collided = Ray { position: at(95), steps: 3, status: Status::Collided(start_hit()) };
    let mut ray = collided;
    assert_eq!(ray.next_step(&space, 10, &moved(500)), Some(start_hit()));
    assert_eq!(ray, collided);
    assert_eq!(ray.next_step(&space, 10, &lost()), Some(start_hit()));
    assert_eq!(ray, collided);

    let diverged = Ray { position: at(95), steps: 3, status: Status::Diverged };
    let mut ray = diverged;
    assert_eq!(ray.next_step(&space, 10, &moved(50)), None);
    assert_eq!(ray, diverged);

    let escaped = Ray { position: at(95), steps: 3, status: Status::Escaped };
    let mut ray = escaped;
    assert_eq!(ray.trace(&space, 10, &vec![moved(50), lost()]), None);
    assert_eq!(ray, escaped);
}

#[test]
fn radial_infall_ends_on_the_horizon() {
    let space = horizon_only();
    let radii = [500, 400, 300, 200, 120, 100, 80, 60];
    let path: Vec<Step> = radii.iter().map(|r| moved(*r)).collect();
    let mut ray = Ray::new_i(&at(600));
    let hit = ray.trace(&space, 100, &path);
    assert_eq!(hit, Some(start_hit()));
    assert_eq!(ray.position, at(100));
    assert_eq!(ray.steps, 6);
    assert_eq!(ray.status, Status::Collided(start_hit()));
}

#[test]
fn outward_path_escapes_when_the_steps_are_used_up() {
    let space = horizon_only();
    let path: Vec<Step> = (1..=5).map(|k| moved(200 + 10 * k)).collect();
    let mut ray = Ray::new_i(&at(200));
    assert_eq!(ray.trace(&space, 5, &path), None);
    assert_eq!(ray, Ray { position: at(250), steps: 5, status: Status::Escaped });
}

#[test]
fn trace_stops_at_the_step_budget() {
    let space = horizon_only();
    let path: Vec<Step> = vec![moved(500), moved(400), moved(90), moved(80)];
    let mut ray = Ray::new_i(&at(600));
    assert_eq!(ray.trace(&space, 2, &path), None);
    assert_eq!(ray, Ray { position: at(400), steps: 2, status: Status::Escaped });
}

#[test]
fn short_path_leaves_the_ray_travelling() {
    let space = horizon_only();
    let mut ray = Ray::new_i(&at(600));
    assert_eq!(ray.trace(&space, 10, &vec![moved(500), moved(400)]), None);
    assert_eq!(ray, Ray { position: at(400), steps: 2, status: Status::Stepping });
    assert_eq!(ray.trace(&space, 10, &vec![moved(300), moved(99)]), Some(start_hit()));
    assert_eq!(ray.steps, 4);
    assert_eq!(ray.position, at(99));
}

#[test]
fn divergence_before_a_collision_wins() {
    let space = horizon_only();
    let mut ray = Ray::new_i(&at(600));
    assert_eq!(ray.trace(&space, 10, &vec![moved(500), lost(), moved(90)]), None);
    assert_eq!(ray, Ray { position: at(500), steps: 2, status: Status::Diverged });
}

#[test]
fn trace_tests_the_segment_just_travelled() {
    let space = Space { obstacles: vec![Obstacle::Ring { r_min: 300, r_max: 500 }] };
    let below = Position { radius: 400, polar: QUARTER_TURN - 0x1_0000, altitude: 0 };
    let nearer = Position { radius: 410, polar: QUARTER_TURN - 0x1000, altitude: 0 };
    let above = Position { radius: 420, polar: QUARTER_TURN + 0x3000, altitude: 0 };
    let path = vec![
        Step { position: Some(nearer), tests: Vec::new() },
        Step { position: Some(above), tests: Vec::new() },
    ];
    let mut ray = Ray::new_i(&below);
    let hit = ray.trace(&space, 10, &path);
    assert_eq!(
        hit,
        Some(CollisionPoint { obstacle: 0, at: Fraction { num: 0x1000, den: 0x4000 } })
    );
    assert_eq!(ray.steps, 2);
    assert_eq!(ray.position, above);
}

#[test]
fn trace_hands_each_step_its_own_tests() {
    let space = Space { obstacles: vec![Obstacle::BlackHolePredict { r: 100 }] };
    let path = vec![
        Step { position: Some(at(140)), tests: vec![false] },
        Step { position: Some(at(130)), tests: vec![true] },
        Step { position: Some(at(120)), tests: vec![true] },
    ];
    let mut ray = Ray::new_i(&at(160));
    assert_eq!(ray.trace(&space, 10, &path), Some(start_hit()));
    assert_eq!(ray.steps, 2);
    assert_eq!(ray.position, at(130));
}

#[test]
fn every_trace_ends_within_its_budget() {
    let space = horizon_only();
    for budget in 0..6 {
        let path: Vec<Step> = (0..6).map(|k| moved(600 + k)).collect();
        let mut ray = Ray::new_i(&at(600));
        let _ = ray.trace(&space, budget, &path);
        assert_ne!(ray.status, Status::Stepping);
        assert_eq!(ray.steps as i32, budget);
    }
}

#[test]
fn no_ray_travels_on_from_inside_the_horizon() {
    // The horizon is listed last, behind a ring that the segment misses and
    // a disk whose test fails.
    let space = Space {
        obstacles: vec![
            Obstacle::Ring { r_min: 300, r_max: 500 },
            Obstacle::AccretionDisk { r_min: 300, r_max: 500, thickness: 10 },
            Obstacle::BlackHole { r: 100 },
        ],
    };
    let mut ray = Ray::new_i(&at(105));
    let step = Step { position: Some(at(100)), tests: vec![false, false, false] };
    let hit = ray.next_step(&space, 10, &step);
    assert_eq!(hit, Some(CollisionPoint { obstacle: 2, at: Fraction { num: 0, den: 1 } }));
    assert_eq!(ray.status, Status::Collided(hit.unwrap()));
}

#[test]
fn no_ray_travels_on_from_beyond_the_outer_limit() {
    let space = Space {
        obstacles: vec![Obstacle::BlackHole { r: 100 }, Obstacle::MaxDistance { r: 880 }],
    };
    let mut ray = Ray::new_i(&at(870));
    let hit = ray.trace(&space, 10, &vec![moved(875), moved(880), moved(900)]);
    assert_eq!(hit, Some(CollisionPoint { obstacle: 1, at: Fraction { num: 0, den: 1 } }));
    assert_eq!(ray.steps, 2);
    assert_eq!(ray.position, at(880));
}
