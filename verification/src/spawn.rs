//! The first flock: agents at rest at random places, a few of them scouts.

use rand::Rng;
use vstd::prelude::*;
use crate::agent::{Agent, AgentView, Direction, Role};
use crate::fixed::{Vec2, Vec2View, SCALE};

verus! {

/// Number of agents in a flock where nothing else is asked for.
pub const DEFAULT_FLOCK_SIZE: usize = 400;

/// Lowest coordinate, in whole units, at which an agent is spawned.
pub const SPAWN_LOW: i32 = -500;

/// Highest coordinate, in whole units, at which an agent is spawned.
pub const SPAWN_HIGH: i32 = 300;

/// Highest roll of the die that decides an agent's role; the lowest is 0.
pub const ROLL_HIGH: i32 = 100;

/// Farthest from zero, in whole units, that a coordinate of a placed agent may be.
pub const PLACE_MAX: i32 = 1_000_000;

/// The role that a roll of the die gives: from 95 a scout of the right, from
/// 90 a scout of the left, below that no role.
pub open spec fn role_of_roll(roll: int) -> Role {
    if roll >= 95 {
        Role::Scout(Direction::Right)
    } else if roll >= 90 {
        Role::Scout(Direction::Left)
    } else {
        Role::Common
    }
}

/// The agent at rest at the place `(x, y)`, given in whole units, with the
/// role that the roll gives.
pub open spec fn placed(x: int, y: int, roll: int) -> AgentView {
    AgentView {
        position: Vec2View { x: x * SCALE, y: y * SCALE },
        velocity: Vec2View::zero(),
        role: role_of_roll(roll),
    }
}

/// The agent is at rest at a place of the spawn area, on a whole unit along
/// each axis.
pub open spec fn is_spawned(a: AgentView) -> bool {
    exists|x: int, y: int, roll: int|
        SPAWN_LOW <= x <= SPAWN_HIGH && SPAWN_LOW <= y <= SPAWN_HIGH && 0 <= roll <= ROLL_HIGH
            && a == #[trigger] placed(x, y, roll)
}

/// The role that a roll of the die gives.
pub fn role_for_roll(roll: i32) -> (r: Role)
    ensures
        r == role_of_roll(roll as int),
{
    if roll >= 95 {
        Role::Scout(Direction::Right)
    } else if roll >= 90 {
        Role::Scout(Direction::Left)
    } else {
        Role::Common
    }
}

/// The agent at rest at the place `(x, y)`, given in whole units, with the
/// role that the roll gives; none where the place is farther from zero than
/// `PLACE_MAX` along an axis.
pub fn place_agent(x: i32, y: i32, roll: i32) -> (r: Option<Agent>)
    ensures
        match r {
            Some(a) => a@ == placed(x as int, y as int, roll as int),
            None => true,
        },
        r.is_some() <==> -PLACE_MAX <= x <= PLACE_MAX && -PLACE_MAX <= y <= PLACE_MAX,
{
    if x < -PLACE_MAX || x > PLACE_MAX || y < -PLACE_MAX || y > PLACE_MAX {
        return None;
    }
    let position: Vec2 = Vec2 { x: (x as i64) * SCALE, y: (y as i64) * SCALE };
    Agent::at_rest(position, role_for_roll(roll))
}

/// A random integer from `low` to `high`, both included, from
/// `rand::Rng::gen_range` on the generator of the calling thread.  Claimed of
/// it: the result lies in the range.  Nothing is claimed of which value comes.
#[verifier::external_body]
fn random_in_range(low: i32, high: i32) -> (r: i32)
    requires
        low <= high,
    ensures
        low <= r <= high,
{
    rand::thread_rng().gen_range(low..=high)
}

/// A flock of `count` agents at rest, each at a random place of the spawn
/// area and with a role that a roll of the die gives.
pub fn spawn_boids(count: usize) -> (flock: Vec<Agent>)
    ensures
        flock.len() == count,
        forall|i: int| 0 <= i < flock.len() ==> is_spawned((#[trigger] flock[i])@),
{
    let mut flock: Vec<Agent> = Vec::new();
    let mut i: usize = 0;
    while i < count
        invariant
            i <= count,
            flock.len() == i,
            forall|j: int| 0 <= j < flock.len() ==> is_spawned((#[trigger] flock[j])@),
        decreases count - i,
    {
        let x: i32 = random_in_range(SPAWN_LOW, SPAWN_HIGH);
        let y: i32 = random_in_range(SPAWN_LOW, SPAWN_HIGH);
        let roll: i32 = random_in_range(0, ROLL_HIGH);
        if let Some(agent) = place_agent(x, y, roll) {
            assert(agent@ == placed(x as int, y as int, roll as int));
            flock.push(agent);
        }
        i = i + 1;
    }
    flock
}

} // verus!
