use physics_sim::{
    bounce_plan, ordered_pairs, remove_flagged, tick_plan, Bounce, CollisionTally, GravityMode,
    TickPlan, VelocityPass, REPORT_EVERY,
};

#[test]
fn uniform_mode_resolves_contacts_then_bounces() {
    assert_eq!(
        tick_plan(GravityMode::Uniform),
        TickPlan { resolve_contacts: true, velocity_pass: VelocityPass::WallsAndGravity }
    );
}

#[test]
fn radial_mode_skips_contacts_and_gravitates() {
    assert_eq!(
        tick_plan(GravityMode::Radial),
        TickPlan { resolve_contacts: false, velocity_pass: VelocityPass::Gravitate }
    );
}

#[test]
fn no_pairs_for_empty_or_single_collection() {
    assert!(ordered_pairs(0).is_empty());
    assert!(ordered_pairs(1).is_empty());
}

#[test]
fn pairs_of_three_in_visiting_order() {
    assert_eq!(ordered_pairs(3), vec![(0, 1), (0, 2), (1, 0), (1, 2), (2, 0), (2, 1)]);
}

#[test]
fn pair_count_is_n_times_n_minus_one() {
    let pairs = ordered_pairs(12);
    assert_eq!(pairs.len(), 12 * 11);
    assert!(pairs.iter().all(|&(a, b)| a != b && a < 12 && b < 12));
    assert!(pairs.windows(2).all(|w| w[0] < w[1]));
}

#[test]
fn free_body_only_falls() {
    assert_eq!(
        bounce_plan(false, false, true),
        Bounce { reflect_u: false, reflect_v: false, damping_steps: 0, gravity_applies: true }
    );
}

#[test]
fn resting_body_takes_no_gravity() {
    // on the floor but not falling: no reflection, and no gravity either
    assert_eq!(
        bounce_plan(false, true, false),
        Bounce { reflect_u: false, reflect_v: false, damping_steps: 0, gravity_applies: false }
    );
}

#[test]
fn floor_bounce_reflects_vertical_velocity() {
    let plan = bounce_plan(false, true, true);
    assert_eq!(
        plan,
        Bounce { reflect_u: false, reflect_v: true, damping_steps: 1, gravity_applies: false }
    );
    let (u, v) = apply(plan, 3.0, -8.0, 0.5, -400.0, 0.01);
    assert_eq!((u, v), (1.5, 4.0));
}

#[test]
fn corner_bounce_damps_twice() {
    assert_eq!(
        bounce_plan(true, true, true),
        Bounce { reflect_u: true, reflect_v: true, damping_steps: 2, gravity_applies: false }
    );
}

/// Applies a bounce to a velocity as the simulation does.
fn apply(plan: Bounce, mut u: f64, mut v: f64, elas: f64, gravity: f64, dt: f64) -> (f64, f64) {
    if plan.reflect_u {
        u = -u;
    }
    if plan.reflect_v {
        v = -v;
    }
    for _ in 0..plan.damping_steps {
        u *= elas;
        v *= elas;
    }
    if plan.gravity_applies {
        v += gravity * dt;
    }
    (u, v)
}

#[test]
fn wall_bounce_reverses_and_halves() {
    let right_wall = 400.0_f64;
    let (x, y, r) = (right_wall - 1.0, 100.0_f64, 5.0_f64);
    let touches_wall = x - r < 0.0 || x + r >= right_wall;
    let touches_floor = y <= r;
    let plan = bounce_plan(touches_wall, touches_floor, 0.0 < 0.0);
    let (u, v) = apply(plan, 10.0, 0.0, 0.5, 0.0, 0.01);
    assert_eq!(u, -5.0);
    assert_eq!(v, 0.0);
}

fn hits(bodies: &[(f64, f64, f64)], px: f64, py: f64) -> Vec<bool> {
    bodies
        .iter()
        .map(|&(x, y, r)| ((x - px).powi(2) + (y - py).powi(2)).sqrt() <= r)
        .collect()
}

#[test]
fn delete_near_removes_only_the_body_under_the_point() {
    let mut bodies = vec![(100.0, 100.0, 10.0)];
    let flags = hits(&bodies, 200.0, 100.0);
    remove_flagged(&mut bodies, &flags);
    assert_eq!(bodies, vec![(100.0, 100.0, 10.0)]);
    let flags = hits(&bodies, 105.0, 100.0);
    remove_flagged(&mut bodies, &flags);
    assert!(bodies.is_empty());
}

#[test]
fn removal_keeps_order_of_survivors() {
    let mut items = vec![10, 11, 12, 13, 14, 15];
    remove_flagged(&mut items, &vec![true, false, true, true, false, false]);
    assert_eq!(items, vec![11, 14, 15]);
}

#[test]
fn removal_of_nothing_and_everything() {
    let mut items = vec![1, 2, 3];
    remove_flagged(&mut items, &vec![false, false, false]);
    assert_eq!(items, vec![1, 2, 3]);
    remove_flagged(&mut items, &vec![true, true, true]);
    assert!(items.is_empty());
    let mut none: Vec<u8> = Vec::new();
    remove_flagged(&mut none, &Vec::new());
    assert!(none.is_empty());
}

#[test]
fn tally_reports_first_and_every_ten_thousandth() {
    let mut tally = CollisionTally::new();
    assert_eq!(tally.count, 0);
    assert!(tally.record());
    let mut reported = 0;
    for _ in 1..REPORT_EVERY {
        if tally.record() {
            reported += 1;
        }
    }
    assert_eq!(reported, 0);
    assert_eq!(tally.count, 10000);
    assert!(tally.record());
    assert_eq!(tally.count, 10001);
}

#[test]
fn tally_stops_at_its_largest_value() {
    let mut tally = CollisionTally { count: u64::MAX };
    tally.record();
    assert_eq!(tally.count, u64::MAX);
}
