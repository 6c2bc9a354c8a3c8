//! One tick of the whole flock.

use vstd::prelude::*;
use crate::agent::{Agent, AgentView};
use crate::estimate::{
    estimate_neighbors, estimate_of, is_alone, is_out_of_sight, lemma_alone_perceives_nothing,
    lemma_estimate_ignores_unseen, Estimate,
};
use crate::fixed::{lemma_scaled_zero, Vec2, Vec2View, FLOCK_MAX};
use crate::force::{avoidance, biased, cohesion, steer, steered, turned};
use crate::motion::{compute_new_position, lemma_moved_in_bounds, moved};
use crate::params::{Bounds, BoundsView, Parameters, ParametersView};
use crate::speed::{clamped, compute_new_speed, lemma_clamped_speed, speed_within};

verus! {

/// The velocity of agent `i` after the forces, before its speed is clamped.
pub open spec fn steered_velocity(
    agents: Seq<Agent>,
    i: int,
    p: ParametersView,
    b: BoundsView,
) -> Vec2View {
    steered(agents[i]@, estimate_of(agents, i, p), p, b)
}

/// The state of agent `i` after one tick of the flock `agents`: what it
/// perceives of the flock as it was, the forces, the clamp of its speed, the
/// move.  Its role stays.
pub open spec fn next_state(agents: Seq<Agent>, i: int, p: ParametersView, b: BoundsView) -> AgentView {
    let velocity = clamped(steered_velocity(agents, i, p, b), p.min_speed, p.max_speed);
    AgentView {
        position: moved(agents[i]@.position, velocity, b),
        velocity,
        role: agents[i]@.role,
    }
}

/// `next` is the flock one tick after `agents`: every agent's new state is
/// computed from the flock as it was before the tick.
pub open spec fn is_next_flock(
    agents: Seq<Agent>,
    p: ParametersView,
    b: BoundsView,
    next: Seq<Agent>,
) -> bool {
    &&& next.len() == agents.len()
    &&& forall|i: int| 0 <= i < agents.len() ==> (#[trigger] next[i])@ == next_state(agents, i, p, b)
}

/// After a tick every agent lies in the area.
pub proof fn lemma_next_state_in_bounds(
    agents: Seq<Agent>,
    i: int,
    p: ParametersView,
    b: BoundsView,
)
    requires
        0 <= i < agents.len(),
        b.valid(),
    ensures
        b.contains(next_state(agents, i, p, b).position.x, next_state(agents, i, p, b).position.y),
{
    lemma_moved_in_bounds(agents[i]@.position, next_state(agents, i, p, b).velocity, b);
}

/// After a tick an agent whose velocity came out of the forces as zero is at
/// rest, and every other has a speed between the two limits, as far as whole
/// steps of resolution allow.
pub proof fn lemma_next_state_speed(agents: Seq<Agent>, i: int, p: ParametersView, b: BoundsView)
    requires
        0 <= i < agents.len(),
        p.valid(),
    ensures
        steered_velocity(agents, i, p, b).norm_sq() == 0 ==> next_state(agents, i, p, b).velocity
            == steered_velocity(agents, i, p, b),
        steered_velocity(agents, i, p, b).norm_sq() != 0 ==> speed_within(
            next_state(agents, i, p, b).velocity,
            p.min_speed,
            p.max_speed,
        ),
{
    lemma_clamped_speed(steered_velocity(agents, i, p, b), p.min_speed, p.max_speed);
}

/// A tick is a function of the flock, the coefficients and the area: two
/// flocks that both come one tick after the same flock are the same.
pub proof fn lemma_tick_deterministic(
    agents: Seq<Agent>,
    p: ParametersView,
    b: BoundsView,
    first: Seq<Agent>,
    second: Seq<Agent>,
)
    requires
        is_next_flock(agents, p, b, first),
        is_next_flock(agents, p, b, second),
    ensures
        first == second,
{
    assert forall|i: int| 0 <= i < first.len() implies first[i] == second[i] by {
        assert(first[i]@ == next_state(agents, i, p, b));
        assert(second[i]@ == next_state(agents, i, p, b));
        Agent::lemma_view_determines(first[i], second[i]);
    }
    assert(first =~= second);
}

/// An agent with nobody within its visual range is steered by the edges and
/// by its role alone: cohesion, alignment and separation leave its velocity
/// as it was.
pub proof fn lemma_alone_is_unaffected(agents: Seq<Agent>, me: int, p: ParametersView, b: BoundsView)
    requires
        0 <= me < agents.len(),
        p.valid(),
        is_alone(agents, me, p),
    ensures
        estimate_of(agents, me, p).neighbor_count == 0,
        estimate_of(agents, me, p).close_offset_sum == Vec2View::zero(),
        avoidance(
            cohesion(agents[me]@.position, agents[me]@.velocity, estimate_of(agents, me, p), p),
            estimate_of(agents, me, p),
            p,
        ) == agents[me]@.velocity,
        steered_velocity(agents, me, p, b) == biased(
            turned(agents[me]@.position, agents[me]@.velocity, b, p),
            agents[me]@.role,
            p,
        ),
{
    lemma_alone_perceives_nothing(agents, me, p);
    lemma_scaled_zero(p.avoid_factor);
}

/// The new state of an agent is computed from the flock as it was before
/// the tick: an agent that was out of its sight then has no part in it,
/// wherever either of them is after the tick.  With any other agent that is
/// out of sight in its place, the new state is the same.
pub proof fn lemma_tick_reads_the_flock_as_it_was(
    agents: Seq<Agent>,
    p: ParametersView,
    b: BoundsView,
    next: Seq<Agent>,
    me: int,
    other: int,
    stand_in: Agent,
)
    requires
        p.valid(),
        is_next_flock(agents, p, b, next),
        0 <= me < agents.len(),
        0 <= other < agents.len(),
        other != me,
        is_out_of_sight(agents[me]@.position, agents[other]@.position, p),
        is_out_of_sight(agents[me]@.position, stand_in@.position, p),
    ensures
        next[me]@ == next_state(agents, me, p, b),
        next[me]@ == next_state(agents.update(other, stand_in), me, p, b),
{
    lemma_estimate_ignores_unseen(agents, me, other, stand_in, p);
    assert(agents.update(other, stand_in)[me] == agents[me]);
}

/// The state of agent `i` after one tick of the flock.
pub fn step_agent(agents: &Vec<Agent>, i: usize, params: &Parameters, bounds: &Bounds) -> (r: Agent)
    requires
        i < agents.len() <= FLOCK_MAX,
    ensures
        r@ == next_state(agents@, i as int, params@, bounds@),
        bounds@.contains(r@.position.x, r@.position.y),
        r@.velocity.within(params@.max_speed),
        steered_velocity(agents@, i as int, params@, bounds@).norm_sq() != 0 ==> speed_within(
            r@.velocity,
            params@.min_speed,
            params@.max_speed,
        ),
{
    proof {
        use_type_invariant(params);
        use_type_invariant(bounds);
    }
    let agent: &Agent = &agents[i];
    let estimate: Estimate = estimate_neighbors(agents, i, params);
    let wanted: Vec2 = steer(agent, &estimate, params, bounds);
    let velocity: Vec2 = compute_new_speed(wanted, params);
    let position: Vec2 = compute_new_position(agent.position(), velocity, bounds);
    Agent::assemble(position, velocity, agent.role())
}

/// One tick: the flock after every agent has perceived the flock as it was,
/// steered, clamped its speed and moved.  The given flock is not changed, so
/// no agent sees the new state of another.
pub fn tick(agents: &Vec<Agent>, params: &Parameters, bounds: &Bounds) -> (next: Vec<Agent>)
    requires
        agents.len() <= FLOCK_MAX,
    ensures
        is_next_flock(agents@, params@, bounds@, next@),
        forall|i: int|
            0 <= i < next.len() ==> bounds@.contains(
                (#[trigger] next[i])@.position.x,
                next[i]@.position.y,
            ),
        forall|i: int|
            0 <= i < next.len() ==> (#[trigger] next[i])@.velocity.within(params@.max_speed),
        forall|i: int|
            0 <= i < next.len() && steered_velocity(agents@, i, params@, bounds@).norm_sq() != 0
                ==> speed_within(
                (#[trigger] next[i])@.velocity,
                params@.min_speed,
                params@.max_speed,
            ),
{
    let mut next: Vec<Agent> = Vec::with_capacity(agents.len());
    let mut i: usize = 0;
    while i < agents.len()
        invariant
            i <= agents.len() <= FLOCK_MAX,
            next.len() == i,
            forall|j: int| 0 <= j < i ==> (#[trigger] next[j])@ == next_state(agents@, j, params@, bounds@),
            forall|j: int|
                0 <= j < i ==> bounds@.contains(
                    (#[trigger] next[j])@.position.x,
                    next[j]@.position.y,
                ),
            forall|j: int| 0 <= j < i ==> (#[trigger] next[j])@.velocity.within(params@.max_speed),
            forall|j: int|
                0 <= j < i && steered_velocity(agents@, j, params@, bounds@).norm_sq() != 0
                    ==> speed_within(
                    (#[trigger] next[j])@.velocity,
                    params@.min_speed,
                    params@.max_speed,
                ),
        decreases agents.len() - i,
    {
        let agent: Agent = step_agent(agents, i, params, bounds);
        next.push(agent);
        i = i + 1;
    }
    next
}

} // verus!
