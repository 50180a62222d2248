//! Spatial acceptance goals for candidate standing positions.
//!
//! A goal decides whether standing at a candidate position `n` satisfies the
//! objective for a target block. Two variants are pure predicates; the
//! `ExactApproach` variant additionally needs a ray cast through the world,
//! which the library cannot perform itself. Its `check` therefore answers
//! either immediately or with a [`RayQuery`] describing the single ray cast
//! the caller must perform; [`ray_confirms`] then settles the answer. The
//! expensive ray cast is only ever requested after the cheap coarse-distance
//! prune has passed.

use vstd::prelude::*;

use crate::pos::{dist_sq, BlockPos};

verus! {

/// A ray cast the caller is asked to perform: from the eye of an agent
/// standing at `stand` (feet position plus the fixed eye offset), looking at
/// the center of `target`, up to `range` blocks.
#[derive(Clone, Copy, Debug, PartialEq, Eq, Structural)]
pub struct RayQuery {
    pub stand: BlockPos,
    pub target: BlockPos,
    pub range: u32,
}

/// What a ray cast hit first: a block face, or an entity standing in the way.
#[derive(Clone, Copy, Debug, PartialEq, Eq, Structural)]
pub enum RayHit {
    Block(BlockPos),
    Entity,
}

/// True when the ray cast reported the target block itself as the first hit.
pub open spec fn ray_confirms_spec(target: BlockPos, hit: RayHit) -> bool {
    hit == RayHit::Block(target)
}

/// True when the ray cast reported the target block itself as the first hit.
pub fn ray_confirms(target: BlockPos, hit: RayHit) -> (b: bool)
    ensures
        b == ray_confirms_spec(target, hit),
{
    match hit {
        RayHit::Block(p) => p == target,
        RayHit::Entity => false,
    }
}

/// A spatial acceptance criterion for a standing position relative to a
/// target block. The variants are ordered from strictest to loosest; the
/// escalation ladder tries them in exactly this order.
#[derive(Clone, Copy, Debug, PartialEq, Eq, Structural)]
pub enum Goal {
    /// Stand where the target is within `distance` blocks and in the line of
    /// sight.
    ExactApproach { target: BlockPos, distance: u32 },
    /// Stand directly next to the target block.
    AdjacentStand { target: BlockPos },
    /// Stand in the target block itself.
    OccupyStand { target: BlockPos },
}

/// Standing in the block: the candidate is the target block or the block
/// below it (the agent is two blocks tall, so either puts a body part in the
/// target).
pub open spec fn occupy_success(target: BlockPos, n: BlockPos) -> bool {
    ||| n == target
    ||| (n.x == target.x && n.y == target.y - 1 && n.z == target.z)
}

/// Standing next to the block: exactly seven positions qualify. With the
/// agent's feet at `n` and its head one block above, these are the positions
/// where head or feet touch the target: one below, one above and two below
/// the target in its column, and the four horizontal neighbours of the block
/// below the target.
pub open spec fn adjacent_success(target: BlockPos, n: BlockPos) -> bool {
    ||| (n.x == target.x && n.y == target.y - 1 && n.z == target.z)
    ||| (n.x == target.x && n.y == target.y + 1 && n.z == target.z)
    ||| (n.x == target.x && n.y == target.y - 2 && n.z == target.z)
    ||| (n.x == target.x && n.y == target.y - 1 && n.z == target.z - 1)
    ||| (n.x == target.x && n.y == target.y - 1 && n.z == target.z + 1)
    ||| (n.x == target.x + 1 && n.y == target.y - 1 && n.z == target.z)
    ||| (n.x == target.x - 1 && n.y == target.y - 1 && n.z == target.z)
}

/// The coarse-prune threshold of an `ExactApproach` goal: candidates farther
/// than `distance + 2` blocks from the target are rejected without a ray
/// cast.
pub open spec fn prune_radius(distance: u32) -> int {
    distance + 2
}

/// True when the candidate survives the cheap coarse-distance prune.
pub open spec fn within_prune(target: BlockPos, distance: u32, n: BlockPos) -> bool {
    dist_sq(target, n) <= prune_radius(distance) * prune_radius(distance)
}

/// The answer of a goal for one candidate position: decided, or pending one
/// ray cast.
#[derive(Clone, Copy, Debug, PartialEq, Eq, Structural)]
pub enum GoalCheck {
    Success,
    Failure,
    NeedsRay(RayQuery),
}

impl Goal {
    /// The target block the goal is about.
    pub open spec fn target_spec(&self) -> BlockPos {
        match *self {
            Goal::ExactApproach { target, .. } => target,
            Goal::AdjacentStand { target } => target,
            Goal::OccupyStand { target } => target,
        }
    }

    /// The target block the goal is about.
    pub fn target(&self) -> (t: BlockPos)
        ensures
            t == self.target_spec(),
    {
        match *self {
            Goal::ExactApproach { target, .. } => target,
            Goal::AdjacentStand { target } => target,
            Goal::OccupyStand { target } => target,
        }
    }

    /// Path-planner heuristic for a candidate: squared block distance to the
    /// target. Monotone in the true distance, so planner ordering is
    /// unchanged by the squaring.
    pub fn heuristic(&self, n: BlockPos) -> (h: i128)
        ensures
            h == dist_sq(self.target_spec(), n),
    {
        let t = self.target();
        t.distance_squared_to(&n)
    }

    /// Decide the goal for candidate `n`.
    ///
    /// The two pure variants answer immediately. `ExactApproach` first
    /// applies the coarse-distance prune (rejecting without any ray cast),
    /// then accepts the target column immediately, and otherwise asks for
    /// exactly one ray cast, described by the returned query.
    pub fn check(&self, n: BlockPos) -> (c: GoalCheck)
        ensures
            c == goal_check_spec(*self, n),
            *self matches Goal::OccupyStand { target } ==> {
                &&& c !is NeedsRay
                &&& (c is Success <==> occupy_success(target, n))
            },
            *self matches Goal::AdjacentStand { target } ==> {
                &&& c !is NeedsRay
                &&& (c is Success <==> adjacent_success(target, n))
            },
            *self matches Goal::ExactApproach { target, distance } ==> {
                &&& !within_prune(target, distance, n) ==> c is Failure
                &&& within_prune(target, distance, n) && occupy_success(target, n) ==> c
                    is Success
                &&& within_prune(target, distance, n) && !occupy_success(target, n) ==> c
                    == GoalCheck::NeedsRay(RayQuery { stand: n, target, range: distance })
            },
    {
        match *self {
            Goal::OccupyStand { target } => {
                if occupies(target, n) {
                    GoalCheck::Success
                } else {
                    GoalCheck::Failure
                }
            },
            Goal::AdjacentStand { target } => {
                if is_adjacent_stand(target, n) {
                    GoalCheck::Success
                } else {
                    GoalCheck::Failure
                }
            },
            Goal::ExactApproach { target, distance } => {
                let d = target.distance_squared_to(&n);
                let radius: i128 = distance as i128 + 2;
                proof {
                    assert(0 <= radius * radius <= 0x1_0000_0004_0000_0004) by (nonlinear_arith)
                        requires
                            0 <= radius <= 0x1_0000_0002,
                    ;
                }
                if d > radius * radius {
                    GoalCheck::Failure
                } else if occupies(target, n) {
                    GoalCheck::Success
                } else {
                    GoalCheck::NeedsRay(RayQuery { stand: n, target, range: distance })
                }
            },
        }
    }
}

/// What [`Goal::check`] answers, as a function of the goal and the
/// candidate.
pub open spec fn goal_check_spec(g: Goal, n: BlockPos) -> GoalCheck {
    match g {
        Goal::OccupyStand { target } => if occupy_success(target, n) {
            GoalCheck::Success
        } else {
            GoalCheck::Failure
        },
        Goal::AdjacentStand { target } => if adjacent_success(target, n) {
            GoalCheck::Success
        } else {
            GoalCheck::Failure
        },
        Goal::ExactApproach { target, distance } => if !within_prune(target, distance, n) {
            GoalCheck::Failure
        } else if occupy_success(target, n) {
            GoalCheck::Success
        } else {
            GoalCheck::NeedsRay(RayQuery { stand: n, target, range: distance })
        },
    }
}

/// The answer of a composite OR-goal for one candidate: decided, or pending
/// the ray casts of its undecided members.
#[derive(Clone, Debug, PartialEq, Eq)]
pub enum CompositeCheck {
    Success,
    Failure,
    NeedsRays(Vec<RayQuery>),
}

/// The ray queries of the members of a composite goal that `check` leaves
/// undecided for candidate `n`, in member order.
pub open spec fn pending_queries(goals: Seq<Goal>, n: BlockPos) -> Seq<RayQuery>
    decreases goals.len(),
{
    if goals.len() == 0 {
        Seq::empty()
    } else {
        let rest = pending_queries(goals.drop_first(), n);
        match goal_check_spec(goals[0], n) {
            GoalCheck::NeedsRay(q) => seq![q] + rest,
            _ => rest,
        }
    }
}

/// Decides a composite OR-goal for candidate `n`: it succeeds as soon as any
/// member succeeds, fails when every member fails, and otherwise hands back
/// the ray casts of the undecided members, in member order. Combined with
/// [`resolve_any`] this evaluates the OR over the member goals.
pub fn check_any(goals: &Vec<Goal>, n: BlockPos) -> (c: CompositeCheck)
    ensures
        c is Success <==> exists|j: int|
            0 <= j < goals@.len() && goal_check_spec(#[trigger] goals@[j], n) is Success,
        !(c is Success) && pending_queries(goals@, n).len() == 0 ==> c is Failure,
        !(c is Success) && pending_queries(goals@, n).len() > 0 ==> c is NeedsRays,
        c matches CompositeCheck::NeedsRays(qs) ==> qs@ == pending_queries(goals@, n),
{
    let mut qs: Vec<RayQuery> = Vec::new();
    let mut j: usize = 0;
    proof {
        assert(goals@.skip(0) =~= goals@);
    }
    while j < goals.len()
        invariant
            j <= goals@.len(),
            forall|k: int| 0 <= k < j ==> !(goal_check_spec(#[trigger] goals@[k], n) is Success),
            qs@ + pending_queries(goals@.skip(j as int), n) =~= pending_queries(goals@, n),
        decreases goals@.len() - j,
    {
        proof {
            assert(goals@.skip(j as int)[0] == goals@[j as int]);
            assert(goals@.skip(j as int).drop_first() =~= goals@.skip(j as int + 1));
        }
        match goals[j].check(n) {
            GoalCheck::Success => {
                return CompositeCheck::Success;
            },
            GoalCheck::NeedsRay(q) => {
                proof {
                    assert(qs@.push(q) =~= qs@ + seq![q]);
                }
                qs.push(q);
            },
            GoalCheck::Failure => {},
        }
        j = j + 1;
    }
    proof {
        assert(goals@.skip(goals@.len() as int) =~= Seq::<Goal>::empty());
        assert(qs@ =~= pending_queries(goals@, n));
    }
    if qs.len() == 0 {
        CompositeCheck::Failure
    } else {
        CompositeCheck::NeedsRays(qs)
    }
}

/// Settles a pending composite check once the caller has cast the requested
/// rays: the OR-goal succeeds exactly when some ray confirmed its member's
/// target. `hits` answers `queries` position by position.
pub fn resolve_any(queries: &Vec<RayQuery>, hits: &Vec<RayHit>) -> (b: bool)
    requires
        hits@.len() == queries@.len(),
    ensures
        b <==> exists|i: int|
            0 <= i < queries@.len() && ray_confirms_spec((#[trigger] queries@[i]).target, hits@[i]),
{
    let mut i: usize = 0;
    while i < queries.len()
        invariant
            hits@.len() == queries@.len(),
            i <= queries@.len(),
            forall|k: int|
                0 <= k < i ==> !ray_confirms_spec((#[trigger] queries@[k]).target, hits@[k]),
        decreases queries@.len() - i,
    {
        if ray_confirms(queries[i].target, hits[i]) {
            return true;
        }
        i = i + 1;
    }
    false
}

/// The composite OR-goal heuristic: the minimum of the member heuristics,
/// letting the path planner pursue whichever member target is cheapest to
/// reach.
pub fn min_heuristic(goals: &Vec<Goal>, n: BlockPos) -> (h: i128)
    requires
        goals@.len() > 0,
    ensures
        exists|j: int| 0 <= j < goals@.len() && h == dist_sq((#[trigger] goals@[j]).target_spec(), n),
        forall|j: int|
            0 <= j < goals@.len() ==> h <= dist_sq((#[trigger] goals@[j]).target_spec(), n),
{
    let mut h = goals[0].heuristic(n);
    let mut j: usize = 1;
    while j < goals.len()
        invariant
            1 <= j <= goals@.len(),
            exists|k: int|
                0 <= k < j && h == dist_sq((#[trigger] goals@[k]).target_spec(), n),
            forall|k: int| 0 <= k < j ==> h <= dist_sq((#[trigger] goals@[k]).target_spec(), n),
        decreases goals@.len() - j,
    {
        let hj = goals[j].heuristic(n);
        if hj < h {
            h = hj;
        }
        j = j + 1;
    }
    h
}

/// The seven positions from which an `AdjacentStand` goal succeeds, written
/// out.
pub open spec fn adjacent_members(t: BlockPos) -> Set<BlockPos> {
    set![
        BlockPos { x: t.x, y: (t.y - 1) as i32, z: t.z },
        BlockPos { x: t.x, y: (t.y + 1) as i32, z: t.z },
        BlockPos { x: t.x, y: (t.y - 2) as i32, z: t.z },
        BlockPos { x: t.x, y: (t.y - 1) as i32, z: (t.z - 1) as i32 },
        BlockPos { x: t.x, y: (t.y - 1) as i32, z: (t.z + 1) as i32 },
        BlockPos { x: (t.x + 1) as i32, y: (t.y - 1) as i32, z: t.z },
        BlockPos { x: (t.x - 1) as i32, y: (t.y - 1) as i32, z: t.z },
    ]
}

/// The success set of an `AdjacentStand` goal has exactly seven members: the
/// positions listed in [`adjacent_members`]. Targets on the outermost rim of
/// the coordinate space are excluded so that every member is representable.
pub proof fn lemma_adjacent_stand_members(t: BlockPos)
    requires
        i32::MIN + 2 <= t.y <= i32::MAX - 1,
        i32::MIN + 1 <= t.x <= i32::MAX - 1,
        i32::MIN + 1 <= t.z <= i32::MAX - 1,
    ensures
        Set::new(|n: BlockPos| adjacent_success(t, n)) =~= adjacent_members(t),
        adjacent_members(t).len() == 7,
{
    broadcast use vstd::set::group_set_axioms;

}

/// Executable form of [`occupy_success`].
fn occupies(target: BlockPos, n: BlockPos) -> (b: bool)
    ensures
        b == occupy_success(target, n),
{
    n == target || (n.x == target.x && n.y as i64 == target.y as i64 - 1 && n.z == target.z)
}

/// Executable form of [`adjacent_success`].
fn is_adjacent_stand(target: BlockPos, n: BlockPos) -> (b: bool)
    ensures
        b == adjacent_success(target, n),
{
    let tx = target.x as i64;
    let ty = target.y as i64;
    let tz = target.z as i64;
    let nx = n.x as i64;
    let ny = n.y as i64;
    let nz = n.z as i64;
    (nx == tx && ny == ty - 1 && nz == tz) || (nx == tx && ny == ty + 1 && nz
        == tz) || (nx == tx && ny == ty - 2 && nz == tz) || (nx == tx && ny == ty - 1 && nz == tz
        - 1) || (nx == tx && ny == ty - 1 && nz == tz + 1) || (nx == tx + 1 && ny == ty - 1 && nz
        == tz) || (nx == tx - 1 && ny == ty - 1 && nz == tz)
}

} // verus!
