//! One member of the flock.

use vstd::prelude::*;
use crate::fixed::{Vec2, Vec2View, COORD_MAX};

verus! {

/// The side toward which a scout drifts.
#[derive(Clone, Copy, Debug, PartialEq, Eq, Structural)]
pub enum Direction {
    Left,
    Right,
}

/// What an agent does besides following the flock.
#[derive(Clone, Copy, Debug, PartialEq, Eq, Structural)]
pub enum Role {
    /// Follows the flock and nothing else.
    Common,
    /// Follows the flock and drifts sideways.
    Scout(Direction),
}

/// An agent as mathematical values.
pub struct AgentView {
    pub position: Vec2View,
    pub velocity: Vec2View,
    pub role: Role,
}

impl AgentView {
    /// Every coordinate of the position and of the velocity is within the
    /// coordinate limit.
    pub open spec fn in_range(self) -> bool {
        &&& self.position.within(COORD_MAX as int)
        &&& self.velocity.within(COORD_MAX as int)
    }
}

/// An agent: where it is, how it moves and what it does.  The coordinates of
/// a value of this type are always within the coordinate limit.
#[derive(Clone, Copy, Debug, PartialEq, Eq, Structural)]
pub struct Agent {
    position: Vec2,
    velocity: Vec2,
    role: Role,
}

impl View for Agent {
    type V = AgentView;

    closed spec fn view(&self) -> AgentView {
        AgentView { position: self.position@, velocity: self.velocity@, role: self.role }
    }
}

impl Agent {
    /// What holds of every value of this type.
    #[verifier::type_invariant]
    pub open spec fn well_formed(self) -> bool {
        self@.in_range()
    }

    /// The agent with the given state, if its coordinates are within the limit.
    pub fn new(position: Vec2, velocity: Vec2, role: Role) -> (r: Option<Agent>)
        ensures
            ({
                let given = AgentView { position: position@, velocity: velocity@, role };
                match r {
                    Some(a) => given.in_range() && a@ == given,
                    None => !given.in_range(),
                }
            }),
    {
        if -COORD_MAX <= position.x && position.x <= COORD_MAX && -COORD_MAX <= position.y
            && position.y <= COORD_MAX && -COORD_MAX <= velocity.x && velocity.x <= COORD_MAX
            && -COORD_MAX <= velocity.y && velocity.y <= COORD_MAX {
            Some(Agent { position, velocity, role })
        } else {
            None
        }
    }

    /// The agent with the given state, which is known to be within the limit.
    pub(crate) fn assemble(position: Vec2, velocity: Vec2, role: Role) -> (a: Agent)
        requires
            position@.within(COORD_MAX as int),
            velocity@.within(COORD_MAX as int),
        ensures
            a@ == (AgentView { position: position@, velocity: velocity@, role }),
    {
        Agent { position, velocity, role }
    }

    /// The agent at rest at the given place, if the place is within the limit.
    pub fn at_rest(position: Vec2, role: Role) -> (r: Option<Agent>)
        ensures
            ({
                let given = AgentView { position: position@, velocity: Vec2View::zero(), role };
                match r {
                    Some(a) => given.in_range() && a@ == given,
                    None => !given.in_range(),
                }
            }),
    {
        Agent::new(position, Vec2 { x: 0, y: 0 }, role)
    }

    /// Where the agent is.
    pub fn position(&self) -> (r: Vec2)
        ensures
            r@ == self@.position,
    {
        self.position
    }

    /// How far the agent moves in one tick.
    pub fn velocity(&self) -> (r: Vec2)
        ensures
            r@ == self@.velocity,
    {
        self.velocity
    }

    /// What the agent does besides following the flock.
    pub fn role(&self) -> (r: Role)
        ensures
            r == self@.role,
    {
        self.role
    }

    /// Two agents with the same mathematical state are the same agent.
    pub proof fn lemma_view_determines(a: Agent, b: Agent)
        requires
            a@ == b@,
        ensures
            a == b,
    {
        assert(a.position@ == b.position@);
        assert(a.velocity@ == b.velocity@);
    }
}

} // verus!
