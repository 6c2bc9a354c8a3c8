//! What one agent perceives of the others.

use vstd::prelude::*;
use crate::agent::{Agent, AgentView};
use crate::fixed::{lemma_toward_zero_bound, magnitude, Vec2, Vec2View, COORD_MAX, FLOCK_MAX, RANGE_MAX};
use crate::params::{Parameters, ParametersView};

verus! {

/// Largest magnitude of a coordinate of a sum of offsets from neighbours
/// that are too close.
pub const CLOSE_MAX: i64 = 10_000_000_000_000_000;

/// The square of the distance between two points.
pub open spec fn dist_sq(a: Vec2View, b: Vec2View) -> int {
    a.minus(b).norm_sq()
}

/// The other agent is nearer than the protected range.
pub open spec fn is_too_close(me: Vec2View, other: Vec2View, p: ParametersView) -> bool {
    dist_sq(me, other) < p.protected_range * p.protected_range
}

/// The other agent is nearer than the visual range and not too close.
pub open spec fn is_visible(me: Vec2View, other: Vec2View, p: ParametersView) -> bool {
    &&& !is_too_close(me, other, p)
    &&& dist_sq(me, other) < p.visual_range * p.visual_range
}

/// The running sums of a scan as mathematical values.
pub struct TallyView {
    /// Sum of the positions of the visible neighbours.
    pub position_sum: Vec2View,
    /// Sum of the velocities of the visible neighbours.
    pub velocity_sum: Vec2View,
    /// Number of visible neighbours.
    pub neighbor_count: int,
    /// Sum of the offsets from the neighbours that are too close.
    pub close_offset_sum: Vec2View,
    /// Number of agents looked at.
    pub seen: int,
}

impl TallyView {
    /// The tally before any agent was looked at.
    pub open spec fn empty() -> TallyView {
        TallyView {
            position_sum: Vec2View::zero(),
            velocity_sum: Vec2View::zero(),
            neighbor_count: 0,
            close_offset_sum: Vec2View::zero(),
            seen: 0,
        }
    }

    /// The sums are no larger than sums over `seen` agents in range can be.
    pub open spec fn bounded(self) -> bool {
        &&& 0 <= self.neighbor_count <= self.seen <= FLOCK_MAX
        &&& self.position_sum.within(self.neighbor_count * COORD_MAX)
        &&& self.velocity_sum.within(self.neighbor_count * COORD_MAX)
        &&& self.close_offset_sum.within(self.seen * RANGE_MAX)
    }
}

/// The tally after one more agent was looked at from the place `me`.
pub open spec fn observed(
    t: TallyView,
    me: Vec2View,
    other: AgentView,
    p: ParametersView,
) -> TallyView {
    if is_too_close(me, other.position, p) {
        TallyView {
            close_offset_sum: t.close_offset_sum.plus(me.minus(other.position)),
            seen: t.seen + 1,
            ..t
        }
    } else if is_visible(me, other.position, p) {
        TallyView {
            position_sum: t.position_sum.plus(other.position),
            velocity_sum: t.velocity_sum.plus(other.velocity),
            neighbor_count: t.neighbor_count + 1,
            seen: t.seen + 1,
            ..t
        }
    } else {
        TallyView { seen: t.seen + 1, ..t }
    }
}

/// The tally of agent `me` over the first `k` agents of the flock, itself
/// left out.
pub open spec fn scanned(agents: Seq<Agent>, me: int, p: ParametersView, k: int) -> TallyView
    decreases k,
{
    if k <= 0 {
        TallyView::empty()
    } else if k - 1 == me {
        scanned(agents, me, p, k - 1)
    } else {
        observed(scanned(agents, me, p, k - 1), agents[me]@.position, agents[k - 1]@, p)
    }
}

/// What an agent perceives, as mathematical values.
pub struct EstimateView {
    /// Average position of the visible neighbours; zero where there is none.
    pub avg_neighbor_pos: Vec2View,
    /// Average velocity of the visible neighbours; zero where there is none.
    pub avg_neighbor_vel: Vec2View,
    /// Number of visible neighbours.
    pub neighbor_count: int,
    /// Sum of the offsets from the neighbours that are too close.
    pub close_offset_sum: Vec2View,
}

impl EstimateView {
    /// The values are no larger than a scan of a flock in range can give.
    pub open spec fn bounded(self) -> bool {
        &&& 0 <= self.neighbor_count <= FLOCK_MAX
        &&& self.avg_neighbor_pos.within(COORD_MAX as int)
        &&& self.avg_neighbor_vel.within(COORD_MAX as int)
        &&& self.close_offset_sum.within(CLOSE_MAX as int)
    }
}

/// The estimate that a finished tally gives: the sums over the visible
/// neighbours become averages, each coordinate rounded toward zero.
pub open spec fn averaged(t: TallyView) -> EstimateView {
    if t.neighbor_count > 0 {
        EstimateView {
            avg_neighbor_pos: t.position_sum.shared_by(t.neighbor_count),
            avg_neighbor_vel: t.velocity_sum.shared_by(t.neighbor_count),
            neighbor_count: t.neighbor_count,
            close_offset_sum: t.close_offset_sum,
        }
    } else {
        EstimateView {
            avg_neighbor_pos: Vec2View::zero(),
            avg_neighbor_vel: Vec2View::zero(),
            neighbor_count: 0,
            close_offset_sum: t.close_offset_sum,
        }
    }
}

/// What agent `me` perceives of the flock.
pub open spec fn estimate_of(agents: Seq<Agent>, me: int, p: ParametersView) -> EstimateView {
    averaged(scanned(agents, me, p, agents.len() as int))
}

/// No other agent of the flock is nearer to agent `me` than the visual range.
pub open spec fn is_alone(agents: Seq<Agent>, me: int, p: ParametersView) -> bool {
    forall|j: int|
        0 <= j < agents.len() && j != me ==> dist_sq(
            agents[me]@.position,
            (#[trigger] agents[j])@.position,
        ) >= p.visual_range * p.visual_range
}

/// The other agent is at the visual range from the place `me`, or farther.
pub open spec fn is_out_of_sight(me: Vec2View, other: Vec2View, p: ParametersView) -> bool {
    dist_sq(me, other) >= p.visual_range * p.visual_range
}

/// An agent out of sight leaves the sums of a tally as they were.
pub proof fn lemma_out_of_sight(t: TallyView, me: Vec2View, other: AgentView, p: ParametersView)
    requires
        0 <= p.protected_range <= p.visual_range,
        is_out_of_sight(me, other.position, p),
    ensures
        observed(t, me, other, p) == (TallyView { seen: t.seen + 1, ..t }),
{
    let pr: int = p.protected_range;
    let vr: int = p.visual_range;
    assert(pr * pr <= vr * vr) by (nonlinear_arith)
        requires
            0 <= pr <= vr,
    ;
}

/// The scan of an agent that has nobody within its visual range finds no
/// neighbour and nobody too close.
pub proof fn lemma_alone_scan(agents: Seq<Agent>, me: int, p: ParametersView, k: int)
    requires
        0 <= p.protected_range <= p.visual_range,
        0 <= me < agents.len(),
        0 <= k <= agents.len(),
        is_alone(agents, me, p),
    ensures
        scanned(agents, me, p, k) == (TallyView {
            seen: scanned(agents, me, p, k).seen,
            ..TallyView::empty()
        }),
    decreases k,
{
    if k > 0 {
        lemma_alone_scan(agents, me, p, k - 1);
        if k - 1 != me {
            assert(is_out_of_sight(agents[me]@.position, agents[k - 1]@.position, p));
            lemma_out_of_sight(
                scanned(agents, me, p, k - 1),
                agents[me]@.position,
                agents[k - 1]@,
                p,
            );
        }
    }
}

/// An agent that has nobody within its visual range perceives nothing: no
/// neighbour, and a sum of close offsets of zero.
pub proof fn lemma_alone_perceives_nothing(agents: Seq<Agent>, me: int, p: ParametersView)
    requires
        0 <= p.protected_range <= p.visual_range,
        0 <= me < agents.len(),
        is_alone(agents, me, p),
    ensures
        estimate_of(agents, me, p) == (EstimateView {
            avg_neighbor_pos: Vec2View::zero(),
            avg_neighbor_vel: Vec2View::zero(),
            neighbor_count: 0,
            close_offset_sum: Vec2View::zero(),
        }),
{
    lemma_alone_scan(agents, me, p, agents.len() as int);
}

/// A scan does not depend on the state of an agent that is out of sight:
/// with another agent that is out of sight in its place, the sums are the same.
pub proof fn lemma_scan_ignores_unseen(
    agents: Seq<Agent>,
    me: int,
    other: int,
    stand_in: Agent,
    p: ParametersView,
    k: int,
)
    requires
        0 <= p.protected_range <= p.visual_range,
        0 <= me < agents.len(),
        0 <= other < agents.len(),
        other != me,
        0 <= k <= agents.len(),
        is_out_of_sight(agents[me]@.position, agents[other]@.position, p),
        is_out_of_sight(agents[me]@.position, stand_in@.position, p),
    ensures
        scanned(agents.update(other, stand_in), me, p, k) == scanned(agents, me, p, k),
    decreases k,
{
    if k > 0 {
        lemma_scan_ignores_unseen(agents, me, other, stand_in, p, k - 1);
        let changed: Seq<Agent> = agents.update(other, stand_in);
        assert(changed[me] == agents[me]);
        if k - 1 == other {
            let before: TallyView = scanned(agents, me, p, k - 1);
            lemma_out_of_sight(before, agents[me]@.position, agents[other]@, p);
            lemma_out_of_sight(before, agents[me]@.position, stand_in@, p);
            assert(changed[k - 1] == stand_in);
        } else if k - 1 != me {
            assert(changed[k - 1] == agents[k - 1]);
        }
    }
}

/// What an agent perceives does not depend on the state of an agent that is
/// out of its sight: with another agent that is out of sight in its place,
/// the estimate is the same.
pub proof fn lemma_estimate_ignores_unseen(
    agents: Seq<Agent>,
    me: int,
    other: int,
    stand_in: Agent,
    p: ParametersView,
)
    requires
        0 <= p.protected_range <= p.visual_range,
        0 <= me < agents.len(),
        0 <= other < agents.len(),
        other != me,
        is_out_of_sight(agents[me]@.position, agents[other]@.position, p),
        is_out_of_sight(agents[me]@.position, stand_in@.position, p),
    ensures
        estimate_of(agents.update(other, stand_in), me, p) == estimate_of(agents, me, p),
{
    lemma_scan_ignores_unseen(agents, me, other, stand_in, p, agents.len() as int);
}

/// The running sums of a scan.
#[derive(Clone, Copy, Debug)]
pub struct Tally {
    position_sum: Vec2,
    velocity_sum: Vec2,
    neighbor_count: u32,
    close_offset_sum: Vec2,
    seen: u32,
}

impl View for Tally {
    type V = TallyView;

    closed spec fn view(&self) -> TallyView {
        TallyView {
            position_sum: self.position_sum@,
            velocity_sum: self.velocity_sum@,
            neighbor_count: self.neighbor_count as int,
            close_offset_sum: self.close_offset_sum@,
            seen: self.seen as int,
        }
    }
}

impl Tally {
    /// What holds of every value of this type.
    #[verifier::type_invariant]
    pub open spec fn well_formed(self) -> bool {
        self@.bounded()
    }

    /// The tally before any agent was looked at.
    pub fn new() -> (t: Tally)
        ensures
            t@ == TallyView::empty(),
    {
        Tally {
            position_sum: Vec2 { x: 0, y: 0 },
            velocity_sum: Vec2 { x: 0, y: 0 },
            neighbor_count: 0,
            close_offset_sum: Vec2 { x: 0, y: 0 },
            seen: 0,
        }
    }

    /// Number of agents looked at.
    pub fn seen(&self) -> (r: u32)
        ensures
            r == self@.seen,
    {
        self.seen
    }
}

/// What an agent perceives of the others.
#[derive(Clone, Copy, Debug)]
pub struct Estimate {
    avg_neighbor_pos: Vec2,
    avg_neighbor_vel: Vec2,
    neighbor_count: u32,
    close_offset_sum: Vec2,
}

impl View for Estimate {
    type V = EstimateView;

    closed spec fn view(&self) -> EstimateView {
        EstimateView {
            avg_neighbor_pos: self.avg_neighbor_pos@,
            avg_neighbor_vel: self.avg_neighbor_vel@,
            neighbor_count: self.neighbor_count as int,
            close_offset_sum: self.close_offset_sum@,
        }
    }
}

impl Estimate {
    /// What holds of every value of this type.
    #[verifier::type_invariant]
    pub open spec fn well_formed(self) -> bool {
        self@.bounded()
    }

    /// Average position of the visible neighbours; zero where there is none.
    pub fn avg_neighbor_pos(&self) -> (r: Vec2)
        ensures
            r@ == self@.avg_neighbor_pos,
    {
        self.avg_neighbor_pos
    }

    /// Average velocity of the visible neighbours; zero where there is none.
    pub fn avg_neighbor_vel(&self) -> (r: Vec2)
        ensures
            r@ == self@.avg_neighbor_vel,
    {
        self.avg_neighbor_vel
    }

    /// Number of visible neighbours.
    pub fn neighbor_count(&self) -> (r: u32)
        ensures
            r == self@.neighbor_count,
    {
        self.neighbor_count
    }

    /// Sum of the offsets from the neighbours that are too close.
    pub fn close_offset_sum(&self) -> (r: Vec2)
        ensures
            r@ == self@.close_offset_sum,
    {
        self.close_offset_sum
    }
}

/// A point that differs from another by the visual range or more along one
/// axis is neither too close nor visible.
proof fn lemma_outside_box(me: Vec2View, other: Vec2View, p: ParametersView)
    requires
        0 <= p.protected_range <= p.visual_range,
        magnitude(me.x - other.x) >= p.visual_range || magnitude(me.y - other.y)
            >= p.visual_range,
    ensures
        !is_too_close(me, other, p),
        !is_visible(me, other, p),
{
    let dx: int = me.x - other.x;
    let dy: int = me.y - other.y;
    let vr: int = p.visual_range;
    let pr: int = p.protected_range;
    assert(dx * dx + dy * dy >= vr * vr) by (nonlinear_arith)
        requires
            vr >= 0,
            magnitude(dx) >= vr || magnitude(dy) >= vr,
    ;
    assert(pr * pr <= vr * vr) by (nonlinear_arith)
        requires
            0 <= pr <= vr,
    ;
}

/// Looks at one other agent from where `me` is and adds it to the tally.
pub fn evaluate_situation(me: &Agent, other: &Agent, tally: Tally, params: &Parameters) -> (r: Tally)
    requires
        tally@.seen < FLOCK_MAX,
    ensures
        r@ == observed(tally@, me@.position, other@, params@),
{
    proof {
        use_type_invariant(me);
        use_type_invariant(other);
        use_type_invariant(tally);
        use_type_invariant(params);
    }
    let here: Vec2 = me.position();
    let there: Vec2 = other.position();
    let visual_range: i64 = params.visual_range();
    let protected_range: i64 = params.protected_range();
    let dx: i64 = here.x - there.x;
    let dy: i64 = here.y - there.y;
    if -visual_range < dx && dx < visual_range && -visual_range < dy && dy < visual_range {
        assert(0 <= dx * dx <= 10_000_000_000 * 10_000_000_000) by (nonlinear_arith)
            requires
                -10_000_000_000 <= dx <= 10_000_000_000,
        ;
        assert(0 <= dy * dy <= 10_000_000_000 * 10_000_000_000) by (nonlinear_arith)
            requires
                -10_000_000_000 <= dy <= 10_000_000_000,
        ;
        assert(0 <= protected_range * protected_range <= 10_000_000_000 * 10_000_000_000)
            by (nonlinear_arith)
            requires
                0 <= protected_range <= 10_000_000_000,
        ;
        assert(0 <= visual_range * visual_range <= 10_000_000_000 * 10_000_000_000)
            by (nonlinear_arith)
            requires
                0 <= visual_range <= 10_000_000_000,
        ;
        let squared_distance: i128 = (dx as i128) * (dx as i128) + (dy as i128) * (dy as i128);
        assert(squared_distance == dist_sq(me@.position, other@.position));
        if squared_distance < (protected_range as i128) * (protected_range as i128) {
            return Tally {
                position_sum: tally.position_sum,
                velocity_sum: tally.velocity_sum,
                neighbor_count: tally.neighbor_count,
                close_offset_sum: Vec2 {
                    x: tally.close_offset_sum.x + dx,
                    y: tally.close_offset_sum.y + dy,
                },
                seen: tally.seen + 1,
            };
        } else if squared_distance < (visual_range as i128) * (visual_range as i128) {
            let velocity: Vec2 = other.velocity();
            return Tally {
                position_sum: Vec2 {
                    x: tally.position_sum.x + there.x,
                    y: tally.position_sum.y + there.y,
                },
                velocity_sum: Vec2 {
                    x: tally.velocity_sum.x + velocity.x,
                    y: tally.velocity_sum.y + velocity.y,
                },
                neighbor_count: tally.neighbor_count + 1,
                close_offset_sum: tally.close_offset_sum,
                seen: tally.seen + 1,
            };
        }
    } else {
        proof {
            lemma_outside_box(me@.position, other@.position, params@);
        }
    }
    Tally {
        position_sum: tally.position_sum,
        velocity_sum: tally.velocity_sum,
        neighbor_count: tally.neighbor_count,
        close_offset_sum: tally.close_offset_sum,
        seen: tally.seen + 1,
    }
}

/// Turns the sums of a finished tally into averages.
pub fn set_average_speed_and_pos(tally: Tally) -> (r: Estimate)
    ensures
        r@ == averaged(tally@),
{
    proof {
        use_type_invariant(tally);
    }
    if tally.neighbor_count > 0 {
        let count: i64 = tally.neighbor_count as i64;
        proof {
            lemma_toward_zero_bound(tally.position_sum.x as int, count as int, COORD_MAX as int);
            lemma_toward_zero_bound(tally.position_sum.y as int, count as int, COORD_MAX as int);
            lemma_toward_zero_bound(tally.velocity_sum.x as int, count as int, COORD_MAX as int);
            lemma_toward_zero_bound(tally.velocity_sum.y as int, count as int, COORD_MAX as int);
        }
        Estimate {
            avg_neighbor_pos: Vec2 {
                x: tally.position_sum.x / count,
                y: tally.position_sum.y / count,
            },
            avg_neighbor_vel: Vec2 {
                x: tally.velocity_sum.x / count,
                y: tally.velocity_sum.y / count,
            },
            neighbor_count: tally.neighbor_count,
            close_offset_sum: tally.close_offset_sum,
        }
    } else {
        Estimate {
            avg_neighbor_pos: Vec2 { x: 0, y: 0 },
            avg_neighbor_vel: Vec2 { x: 0, y: 0 },
            neighbor_count: 0,
            close_offset_sum: tally.close_offset_sum,
        }
    }
}

/// What agent `me` perceives of the flock: a scan of all the others.
pub fn estimate_neighbors(agents: &Vec<Agent>, me: usize, params: &Parameters) -> (r: Estimate)
    requires
        me < agents.len() <= FLOCK_MAX,
    ensures
        r@ == estimate_of(agents@, me as int, params@),
{
    let mut tally: Tally = Tally::new();
    let mut k: usize = 0;
    while k < agents.len()
        invariant
            k <= agents.len() <= FLOCK_MAX,
            me < agents.len(),
            tally@ == scanned(agents@, me as int, params@, k as int),
            tally@.seen <= k,
        decreases agents.len() - k,
    {
        if k != me {
            tally = evaluate_situation(&agents[me], &agents[k], tally, params);
        }
        k = k + 1;
    }
    set_average_speed_and_pos(tally)
}

} // verus!
