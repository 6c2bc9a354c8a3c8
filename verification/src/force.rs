//! The forces that change an agent's velocity, in the order in which they act.

use vstd::prelude::*;
use crate::agent::{Agent, AgentView, Direction, Role};
use crate::estimate::{Estimate, EstimateView};
use crate::fixed::{lemma_scaled_bound, mul_scaled, scaled, Vec2, Vec2View, SCALE, WIDE_MAX};
use crate::params::{Bounds, BoundsView, Parameters, ParametersView};

verus! {

/// The velocity after cohesion and alignment: pulled toward the neighbours'
/// average position and toward their average velocity.  Without a visible
/// neighbour neither acts.
pub open spec fn cohesion(
    position: Vec2View,
    velocity: Vec2View,
    est: EstimateView,
    p: ParametersView,
) -> Vec2View {
    if est.neighbor_count > 0 {
        velocity.plus(est.avg_neighbor_pos.minus(position).times(p.centering_factor)).plus(
            est.avg_neighbor_vel.minus(velocity).times(p.matching_factor),
        )
    } else {
        velocity
    }
}

/// The velocity after separation: pushed away from the neighbours that are
/// too close.
pub open spec fn avoidance(velocity: Vec2View, est: EstimateView, p: ParametersView) -> Vec2View {
    velocity.plus(est.close_offset_sum.times(p.avoid_factor))
}

/// One velocity coordinate after the turn at the edges of its axis: raised
/// in the strip along the lower edge, else lowered in the strip along the
/// upper edge.
pub open spec fn edge_turn(place: int, speed: int, half: int, margin: int, turn: int) -> int {
    if place <= -half + margin {
        speed + turn
    } else if place >= half - margin {
        speed - turn
    } else {
        speed
    }
}

/// The velocity after the turn at the edges of the area.
pub open spec fn turned(
    position: Vec2View,
    velocity: Vec2View,
    b: BoundsView,
    p: ParametersView,
) -> Vec2View {
    Vec2View {
        x: edge_turn(position.x, velocity.x, b.half_width, b.margin, p.turn_factor),
        y: edge_turn(position.y, velocity.y, b.half_height, b.margin, p.turn_factor),
    }
}

/// The velocity after the drift of a scout: its horizontal coordinate is
/// smoothed toward `+1.0` or `-1.0` with the weight `bias`.
pub open spec fn biased(velocity: Vec2View, role: Role, p: ParametersView) -> Vec2View {
    match role {
        Role::Scout(Direction::Left) => Vec2View {
            x: scaled(velocity.x, SCALE - p.bias) + p.bias,
            y: velocity.y,
        },
        Role::Scout(Direction::Right) => Vec2View {
            x: scaled(velocity.x, SCALE - p.bias) - p.bias,
            y: velocity.y,
        },
        Role::Common => velocity,
    }
}

/// The velocity after all four forces, in their order: cohesion with
/// alignment, separation, the turn at the edges, the drift of a scout.
pub open spec fn steered(
    a: AgentView,
    est: EstimateView,
    p: ParametersView,
    b: BoundsView,
) -> Vec2View {
    biased(
        turned(a.position, avoidance(cohesion(a.position, a.velocity, est, p), est, p), b, p),
        a.role,
        p,
    )
}

/// Largest magnitude of a velocity coordinate after cohesion and alignment.
pub const COHESION_MAX: i64 = 41_000_000_000_000;

/// Largest change of a velocity coordinate by separation.
pub const AVOIDANCE_MAX: i64 = 100_000_000_000_000_000;

/// Cohesion and alignment: pulls the agent's velocity toward the average
/// position and the average velocity of its visible neighbours, if it has any.
pub fn apply_cohesion(agent: &Agent, est: &Estimate, params: &Parameters) -> (r: Vec2)
    ensures
        r@ == cohesion(agent@.position, agent@.velocity, est@, params@),
        r@.within(COHESION_MAX as int),
{
    proof {
        use_type_invariant(agent);
        use_type_invariant(est);
        use_type_invariant(params);
    }
    let position: Vec2 = agent.position();
    let velocity: Vec2 = agent.velocity();
    if est.neighbor_count() > 0 {
        let avg_pos: Vec2 = est.avg_neighbor_pos();
        let avg_vel: Vec2 = est.avg_neighbor_vel();
        let centering: i64 = params.centering_factor();
        let matching: i64 = params.matching_factor();
        proof {
            lemma_scaled_bound(avg_pos.x - position.x, centering as int, 2_000_000_000_000, 10_000_000);
            lemma_scaled_bound(avg_pos.y - position.y, centering as int, 2_000_000_000_000, 10_000_000);
            lemma_scaled_bound(avg_vel.x - velocity.x, matching as int, 2_000_000_000_000, 10_000_000);
            lemma_scaled_bound(avg_vel.y - velocity.y, matching as int, 2_000_000_000_000, 10_000_000);
        }
        Vec2 {
            x: velocity.x + mul_scaled(avg_pos.x - position.x, centering) + mul_scaled(
                avg_vel.x - velocity.x,
                matching,
            ),
            y: velocity.y + mul_scaled(avg_pos.y - position.y, centering) + mul_scaled(
                avg_vel.y - velocity.y,
                matching,
            ),
        }
    } else {
        velocity
    }
}

/// Separation: pushes the velocity away from the neighbours that are too close.
pub fn apply_avoidance(velocity: Vec2, est: &Estimate, params: &Parameters) -> (r: Vec2)
    requires
        velocity@.within(WIDE_MAX as int),
    ensures
        r@ == avoidance(velocity@, est@, params@),
        r@.minus(velocity@).within(AVOIDANCE_MAX as int),
{
    proof {
        use_type_invariant(est);
        use_type_invariant(params);
    }
    let close: Vec2 = est.close_offset_sum();
    let factor: i64 = params.avoid_factor();
    proof {
        lemma_scaled_bound(close.x as int, factor as int, 10_000_000_000_000_000, 10_000_000);
        lemma_scaled_bound(close.y as int, factor as int, 10_000_000_000_000_000, 10_000_000);
    }
    Vec2 { x: velocity.x + mul_scaled(close.x, factor), y: velocity.y + mul_scaled(close.y, factor) }
}

/// The turn at the edges: in the strip of width `margin` along an edge, the
/// velocity coordinate across that edge is moved inward by the turn factor.
pub fn turn_if_edge(position: Vec2, velocity: Vec2, bounds: &Bounds, params: &Parameters) -> (r:
    Vec2)
    requires
        velocity@.within(WIDE_MAX as int),
    ensures
        r@ == turned(position@, velocity@, bounds@, params@),
        r@.minus(velocity@).within(params@.turn_factor),
{
    proof {
        use_type_invariant(bounds);
        use_type_invariant(params);
    }
    let turn: i64 = params.turn_factor();
    let margin: i64 = bounds.margin();
    let half_width: i64 = bounds.half_width();
    let half_height: i64 = bounds.half_height();
    let mut x: i64 = velocity.x;
    let mut y: i64 = velocity.y;
    if position.x <= -half_width + margin {
        x = x + turn;
    } else if position.x >= half_width - margin {
        x = x - turn;
    }
    if position.y <= -half_height + margin {
        y = y + turn;
    } else if position.y >= half_height - margin {
        y = y - turn;
    }
    Vec2 { x, y }
}

/// The drift of a scout: smooths the horizontal velocity toward `+1.0` for a
/// scout of the left, toward `-1.0` for a scout of the right.
pub fn apply_bias(velocity: Vec2, role: Role, params: &Parameters) -> (r: Vec2)
    requires
        velocity@.within(WIDE_MAX as int),
    ensures
        r@ == biased(velocity@, role, params@),
{
    proof {
        use_type_invariant(params);
    }
    let bias: i64 = params.bias();
    proof {
        lemma_scaled_bound(velocity.x as int, SCALE - bias, WIDE_MAX as int, 10_000_000);
    }
    match role {
        Role::Scout(Direction::Left) => Vec2 {
            x: mul_scaled(velocity.x, SCALE - bias) + bias,
            y: velocity.y,
        },
        Role::Scout(Direction::Right) => Vec2 {
            x: mul_scaled(velocity.x, SCALE - bias) - bias,
            y: velocity.y,
        },
        Role::Common => velocity,
    }
}

/// The force model: the agent's velocity after cohesion with alignment,
/// separation, the turn at the edges and the drift of a scout.
pub fn steer(agent: &Agent, est: &Estimate, params: &Parameters, bounds: &Bounds) -> (r: Vec2)
    ensures
        r@ == steered(agent@, est@, params@, bounds@),
{
    proof {
        use_type_invariant(params);
    }
    let pulled: Vec2 = apply_cohesion(agent, est, params);
    let pushed: Vec2 = apply_avoidance(pulled, est, params);
    let turned: Vec2 = turn_if_edge(agent.position(), pushed, bounds, params);
    apply_bias(turned, agent.role(), params)
}

} // verus!
