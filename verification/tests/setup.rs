use boids::agent::{Direction, Role};
use boids::control::{check_keyboard_input, AppState, Command};
use boids::fixed::Vec2;
use boids::spawn::{place_agent, role_for_roll, spawn_boids, DEFAULT_FLOCK_SIZE};

const U: i64 = 1_000_000;

#[test]
fn roll_decides_the_role() {
    assert_eq!(role_for_roll(0), Role::Common);
    assert_eq!(role_for_roll(89), Role::Common);
    assert_eq!(role_for_roll(90), Role::Scout(Direction::Left));
    assert_eq!(role_for_roll(94), Role::Scout(Direction::Left));
    assert_eq!(role_for_roll(95), Role::Scout(Direction::Right));
    assert_eq!(role_for_roll(100), Role::Scout(Direction::Right));
    assert_eq!(role_for_roll(-1), Role::Common);
    assert_eq!(role_for_roll(i32::MAX), Role::Scout(Direction::Right));
}

#[test]
fn placed_agent_is_at_rest_on_whole_units() {
    let a = place_agent(-500, 300, 92).unwrap();
    assert_eq!(a.position(), Vec2::new(-500 * U, 300 * U));
    assert_eq!(a.velocity(), Vec2::new(0, 0));
    assert_eq!(a.role(), Role::Scout(Direction::Left));
}

#[test]
fn agent_is_not_placed_out_of_range() {
    assert!(place_agent(1_000_000, -1_000_000, 0).is_some());
    assert!(place_agent(1_000_001, 0, 0).is_none());
    assert!(place_agent(0, -1_000_001, 0).is_none());
    assert!(place_agent(i32::MIN, i32::MAX, 0).is_none());
}

#[test]
fn spawned_flock_has_the_size_asked_for() {
    assert_eq!(spawn_boids(0).len(), 0);
    assert_eq!(spawn_boids(1).len(), 1);
    assert_eq!(spawn_boids(DEFAULT_FLOCK_SIZE).len(), 400);
}

#[test]
fn spawned_agents_are_at_rest_in_the_spawn_area() {
    for a in spawn_boids(1000) {
        let p = a.position();
        assert!(-500 * U <= p.x && p.x <= 300 * U);
        assert!(-500 * U <= p.y && p.y <= 300 * U);
        assert_eq!(p.x % U, 0);
        assert_eq!(p.y % U, 0);
        assert_eq!(a.velocity(), Vec2::new(0, 0));
    }
}

#[test]
fn spawned_agents_differ() {
    let flock = spawn_boids(4000);
    let first = flock[0];
    assert!(flock.iter().any(|a| a.position().x != first.position().x));
    assert!(flock.iter().any(|a| a.position().y != first.position().y));
    assert!(flock.iter().any(|a| a.position().x != a.position().y));
    assert!(flock.iter().any(|a| a.position().x > -500 * U));
    assert!(flock.iter().any(|a| a.position().x < 300 * U));
    assert!(flock.iter().any(|a| a.role() == Role::Common));
    assert!(flock.iter().any(|a| a.role() != Role::Common));
}

#[test]
fn pause_key_switches_between_running_and_paused() {
    assert_eq!(
        check_keyboard_input(true, false, AppState::Running),
        Command::Switch(AppState::Paused)
    );
    assert_eq!(
        check_keyboard_input(true, false, AppState::Paused),
        Command::Switch(AppState::Running)
    );
}

#[test]
fn quit_key_ends_the_simulation() {
    assert_eq!(check_keyboard_input(false, true, AppState::Running), Command::Quit);
    assert_eq!(check_keyboard_input(false, true, AppState::Paused), Command::Quit);
}

#[test]
fn pause_key_goes_before_the_quit_key() {
    assert_eq!(
        check_keyboard_input(true, true, AppState::Running),
        Command::Switch(AppState::Paused)
    );
    assert_eq!(
        check_keyboard_input(true, true, AppState::Paused),
        Command::Switch(AppState::Running)
    );
}

#[test]
fn no_key_changes_nothing() {
    assert_eq!(check_keyboard_input(false, false, AppState::Running), Command::Stay);
    assert_eq!(check_keyboard_input(false, false, AppState::Paused), Command::Stay);
}
