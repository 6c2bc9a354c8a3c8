use boids::agent::{Agent, Direction, Role};
use boids::estimate::estimate_neighbors;
use boids::fixed::Vec2;
use boids::force::{apply_bias, apply_cohesion, steer, turn_if_edge};
use boids::motion::compute_new_position;
use boids::params::{Bounds, Parameters};
use boids::simulation::{step_agent, tick};
use boids::speed::compute_new_speed;

const U: i64 = 1_000_000;

fn agent(x: i64, y: i64, vx: i64, vy: i64, role: Role) -> Agent {
    Agent::new(Vec2::new(x, y), Vec2::new(vx, vy), role).unwrap()
}

fn norm_sq(v: Vec2) -> i128 {
    (v.x as i128) * (v.x as i128) + (v.y as i128) * (v.y as i128)
}

fn small_flock() -> Vec<Agent> {
    vec![
        agent(0, 0, 3 * U, 0, Role::Common),
        agent(5 * U, 2 * U, 0, 4 * U, Role::Scout(Direction::Left)),
        agent(-20 * U, 10 * U, -3 * U, -3 * U, Role::Common),
        agent(30 * U, -25 * U, 0, 0, Role::Scout(Direction::Right)),
        agent(-290 * U, 195 * U, 6 * U, 6 * U, Role::Common),
        agent(299 * U, -199 * U, 5 * U, -5 * U, Role::Common),
        agent(300 * U, 200 * U, 0, 0, Role::Common),
        agent(12 * U, 7 * U, 100 * U, -100 * U, Role::Common),
    ]
}

#[test]
fn empty_flock_stays_empty() {
    let next = tick(&Vec::new(), &Parameters::default(), &Bounds::new(U, U, 0).unwrap());
    assert!(next.is_empty());
}

#[test]
fn tick_keeps_the_number_and_the_roles() {
    let flock = small_flock();
    let bounds = Bounds::new(300 * U, 200 * U, 20 * U).unwrap();
    let next = tick(&flock, &Parameters::default(), &bounds);
    assert_eq!(next.len(), flock.len());
    for i in 0..flock.len() {
        assert_eq!(next[i].role(), flock[i].role());
    }
}

#[test]
fn tick_does_not_change_the_flock_it_was_given() {
    let flock = small_flock();
    let before = flock.clone();
    let bounds = Bounds::new(300 * U, 200 * U, 20 * U).unwrap();
    let _ = tick(&flock, &Parameters::default(), &bounds);
    assert_eq!(flock, before);
}

#[test]
fn after_a_tick_every_agent_is_in_the_area() {
    let bounds = Bounds::new(30 * U, 20 * U, 5 * U).unwrap();
    let mut flock = small_flock();
    for _ in 0..50 {
        flock = tick(&flock, &Parameters::default(), &bounds);
        for a in &flock {
            assert!(-30 * U <= a.position().x && a.position().x <= 30 * U);
            assert!(-20 * U <= a.position().y && a.position().y <= 20 * U);
        }
    }
}

#[test]
fn after_a_tick_every_speed_is_within_the_limits_or_zero() {
    let params = Parameters::default();
    let bounds = Bounds::new(300 * U, 200 * U, 20 * U).unwrap();
    let low = (3 * U as i128) * (3 * U as i128);
    let high = (6 * U as i128) * (6 * U as i128);
    let mut flock = small_flock();
    for _ in 0..50 {
        flock = tick(&flock, &params, &bounds);
        for a in &flock {
            let v = a.velocity();
            if v != Vec2::new(0, 0) {
                assert!(norm_sq(v) <= high);
                assert!(norm_sq(Vec2::new(v.x.abs() + 1, v.y.abs() + 1)) >= low);
            }
        }
    }
}

#[test]
fn agent_at_rest_far_from_all_stays_at_rest() {
    let params = Parameters::default();
    let bounds = Bounds::new(300 * U, 200 * U, 20 * U).unwrap();
    let flock = vec![agent(0, 0, 0, 0, Role::Common), agent(100 * U, 0, 4 * U, 0, Role::Common)];
    let next = tick(&flock, &params, &bounds);
    assert_eq!(next[0], flock[0]);
}

#[test]
fn tick_gives_the_same_flock_for_the_same_input() {
    let params = Parameters::default();
    let bounds = Bounds::new(300 * U, 200 * U, 20 * U).unwrap();
    let flock = small_flock();
    let first = tick(&flock, &params, &bounds);
    let second = tick(&flock, &params, &bounds);
    assert_eq!(first, second);
    let first = tick(&first, &params, &bounds);
    let second = tick(&second, &params, &bounds);
    assert_eq!(first, second);
}

#[test]
fn tick_is_the_step_of_every_agent() {
    let params = Parameters::default();
    let bounds = Bounds::new(300 * U, 200 * U, 20 * U).unwrap();
    let flock = small_flock();
    let next = tick(&flock, &params, &bounds);
    for i in 0..flock.len() {
        assert_eq!(next[i], step_agent(&flock, i, &params, &bounds));
        let estimate = estimate_neighbors(&flock, i, &params);
        let wanted = steer(&flock[i], &estimate, &params, &bounds);
        let velocity = compute_new_speed(wanted, &params);
        let position = compute_new_position(flock[i].position(), velocity, &bounds);
        assert_eq!(next[i].velocity(), velocity);
        assert_eq!(next[i].position(), position);
    }
}

#[test]
fn isolated_agent_is_steered_by_edge_and_role_alone() {
    let params = Parameters::default();
    let bounds = Bounds::new(300 * U, 200 * U, 20 * U).unwrap();
    let flock = vec![
        agent(290 * U, 0, 4 * U, U, Role::Scout(Direction::Left)),
        agent(250 * U, 0, -4 * U, -4 * U, Role::Common),
        agent(290 * U, 40 * U, -4 * U, -4 * U, Role::Common),
    ];
    let estimate = estimate_neighbors(&flock, 0, &params);
    assert_eq!(estimate.neighbor_count(), 0);
    assert_eq!(estimate.close_offset_sum(), Vec2::new(0, 0));
    assert_eq!(apply_cohesion(&flock[0], &estimate, &params), flock[0].velocity());
    let turned = turn_if_edge(flock[0].position(), flock[0].velocity(), &bounds, &params);
    let expected = apply_bias(turned, flock[0].role(), &params);
    assert_eq!(steer(&flock[0], &estimate, &params, &bounds), expected);
    // 0.999 * (4 - 0.2) + 0.001 = 3.7972
    assert_eq!(expected, Vec2::new(3_797_200, U));
    let next = tick(&flock, &params, &bounds);
    assert_eq!(next[0].velocity(), expected);
    assert_eq!(next[0].position(), Vec2::new(293_797_200, U));
}

#[test]
fn agent_that_comes_into_sight_during_a_tick_is_not_yet_seen() {
    // Before the tick the two are 41 apart, out of sight of each other at a
    // visual range of 40.  Each moves 3 toward the other, so after the tick
    // they are 35 apart.  Neither may have seen the other in this tick.
    let params = Parameters::default();
    let bounds = Bounds::new(300 * U, 200 * U, 20 * U).unwrap();
    let a = agent(0, 0, 3 * U, 0, Role::Common);
    let b = agent(41 * U, 0, -3 * U, 0, Role::Common);
    let next = tick(&vec![a, b], &params, &bounds);
    assert_eq!(next[0], agent(3 * U, 0, 3 * U, 0, Role::Common));
    assert_eq!(next[1], agent(38 * U, 0, -3 * U, 0, Role::Common));
    let alone_a = tick(&vec![a], &params, &bounds);
    let alone_b = tick(&vec![b], &params, &bounds);
    assert_eq!(next[0], alone_a[0]);
    assert_eq!(next[1], alone_b[0]);
    assert_eq!(estimate_neighbors(&vec![a, b], 0, &params).neighbor_count(), 0);
    assert_eq!(estimate_neighbors(&vec![a, b], 1, &params).neighbor_count(), 0);
    // In the next tick they see each other.
    assert_eq!(estimate_neighbors(&next, 0, &params).neighbor_count(), 1);
    assert_eq!(estimate_neighbors(&next, 1, &params).neighbor_count(), 1);
    assert_eq!(estimate_neighbors(&next, 0, &params).avg_neighbor_pos(), Vec2::new(38 * U, 0));
}

#[test]
fn agent_that_leaves_sight_during_a_tick_is_still_seen() {
    // Before the tick the two are 39 apart and see each other; after it they
    // are more than 40 apart.  Each was steered by the other's old state.
    let params = Parameters::default();
    let bounds = Bounds::new(300 * U, 200 * U, 20 * U).unwrap();
    let a = agent(0, 0, -3 * U, 0, Role::Common);
    let b = agent(39 * U, 0, 3 * U, 0, Role::Common);
    let next = tick(&vec![a, b], &params, &bounds);
    // a: -3 + (39 - 0) * 0.0005 + (3 - -3) * 0.05 = -2.6805, below the minimum of 3
    assert_eq!(next[0].velocity(), Vec2::new(-3 * U, 0));
    // a seen from b alone, at the place where a was
    let estimate = estimate_neighbors(&vec![a, b], 1, &params);
    assert_eq!(estimate.neighbor_count(), 1);
    assert_eq!(estimate.avg_neighbor_pos(), Vec2::new(0, 0));
    assert_eq!(estimate.avg_neighbor_vel(), Vec2::new(-3 * U, 0));
    let wanted = steer(&b, &estimate, &params, &bounds);
    assert_eq!(wanted, Vec2::new(3 * U - 19_500 - 300_000, 0));
    assert_eq!(next[1].velocity(), Vec2::new(3 * U, 0));
    assert_eq!(next[1].position(), Vec2::new(42 * U, 0));
}

#[test]
fn later_agent_does_not_see_the_new_state_of_an_earlier_one() {
    let params = Parameters::new(0, 40 * U, 2 * U, 100_000, 0, 0, 100 * U, 0, 0).unwrap();
    let bounds = Bounds::new(300 * U, 200 * U, 0).unwrap();
    let a = agent(0, 0, 0, 0, Role::Common);
    let b = agent(10 * U, 0, 0, 0, Role::Common);
    let next = tick(&vec![a, b], &params, &bounds);
    // Each is pulled toward where the other was: 10 * 0.1 = 1.
    assert_eq!(next[0], agent(U, 0, U, 0, Role::Common));
    assert_eq!(next[1], agent(9 * U, 0, -U, 0, Role::Common));
}

#[test]
fn largest_values_do_not_overflow() {
    let params = Parameters::new(
        10 * U,
        10_000 * U,
        10_000 * U,
        10 * U,
        10 * U,
        10 * U,
        1_000 * U,
        1_000 * U,
        10 * U,
    )
    .unwrap();
    let limit = 1_000_000 * U;
    let bounds = Bounds::new(limit, limit, limit).unwrap();
    let mut flock = Vec::new();
    for i in 0..200 {
        flock.push(agent(limit - i, limit - 2 * i, limit, -limit, Role::Scout(Direction::Right)));
        flock.push(agent(limit - 9_999 * U, limit - i, -limit, limit, Role::Scout(Direction::Left)));
    }
    flock.push(agent(-limit, -limit, -limit, -limit, Role::Common));
    let next = tick(&flock, &params, &bounds);
    assert_eq!(next.len(), flock.len());
    for a in &next {
        let v = a.velocity();
        assert!(norm_sq(v) <= (1_000 * U as i128) * (1_000 * U as i128));
        assert!(a.position().x.abs() <= limit && a.position().y.abs() <= limit);
    }
}
