//! The three-stage action escalation ladder.
//!
//! [`ActionEscalator`] drives one attempt to mine any of an ordered list of
//! candidate target blocks. For each stage of a fixed ladder of increasingly
//! permissive spatial goals it asks the caller to submit a path request over
//! all targets, then walks the targets in their original order, asking the
//! caller for fresh world samples and judging each target with the
//! reachability check; the first target that passes is mined and the whole
//! operation succeeds. Only when every target failed in every stage does the
//! operation fail.
//!
//! The library never touches the world itself: `step` consumes one event
//! (the outcome of the previous action) and returns the next action for the
//! caller to perform. The caller must sample world state fresh for every
//! event — the environment mutates between suspensions.

use vstd::prelude::*;

use crate::goal::{Goal, RayHit, RayQuery};
use crate::pos::{dist_sq, BlockPos};
use crate::reach::{can_mine_block, can_mine_precheck_spec, ray_verdict_spec, BlockSample};

verus! {

/// Distance parameter of the stage-one `ExactApproach` goal, in blocks.
pub const EXACT_APPROACH_DISTANCE: u32 = 3;

/// Agent positions strictly closer than this many blocks to a target that
/// turned to air are taken to have mined it themselves.
pub const SELF_MINED_RADIUS: u32 = 4;

/// Minimum path-follow timeout, in seconds, to attach to every path request.
pub const PATH_MIN_TIMEOUT_SECS: u64 = 2;

/// Maximum path-follow timeout, in seconds, to attach to every path request.
/// The planner resolves within this bound even on failure, so the escalator
/// never hangs waiting for a path.
pub const PATH_MAX_TIMEOUT_SECS: u64 = 10;

/// Every candidate target was tried at every stage of the ladder and none
/// could be mined.
#[derive(Clone, Copy, Debug, PartialEq, Eq, Structural)]
pub struct CantMineAnyError;

/// One stage of the escalation ladder, in its fixed order.
#[derive(Clone, Copy, Debug, PartialEq, Eq, Structural)]
pub enum Stage {
    ExactApproach,
    AdjacentStand,
    OccupyStand,
}

/// The fixed escalation order: exact approach, then adjacent stand, then
/// occupy stand.
pub open spec fn full_ladder() -> Seq<Stage> {
    seq![Stage::ExactApproach, Stage::AdjacentStand, Stage::OccupyStand]
}

/// The goal variant a stage uses for one target.
pub open spec fn stage_goal_spec(stage: Stage, target: BlockPos) -> Goal {
    match stage {
        Stage::ExactApproach => Goal::ExactApproach { target, distance: EXACT_APPROACH_DISTANCE },
        Stage::AdjacentStand => Goal::AdjacentStand { target },
        Stage::OccupyStand => Goal::OccupyStand { target },
    }
}

/// Builds the member goals of the composite OR-goal for one stage: one goal
/// of the stage's variant per target, in target order. The caller hands
/// these to the path planner when asked to submit a path request.
pub fn stage_goals(stage: Stage, targets: &Vec<BlockPos>) -> (gs: Vec<Goal>)
    ensures
        gs@.len() == targets@.len(),
        forall|i: int| 0 <= i < gs@.len() ==> gs@[i] == stage_goal_spec(stage, targets@[i]),
{
    let mut gs: Vec<Goal> = Vec::new();
    let mut i: usize = 0;
    while i < targets.len()
        invariant
            i <= targets@.len(),
            gs@.len() == i,
            forall|j: int| 0 <= j < i ==> gs@[j] == stage_goal_spec(stage, targets@[j]),
        decreases targets@.len() - i,
    {
        let t = targets[i];
        let g = match stage {
            Stage::ExactApproach => Goal::ExactApproach {
                target: t,
                distance: EXACT_APPROACH_DISTANCE,
            },
            Stage::AdjacentStand => Goal::AdjacentStand { target: t },
            Stage::OccupyStand => Goal::OccupyStand { target: t },
        };
        gs.push(g);
        i = i + 1;
    }
    gs
}

/// The ladder stages submitted once the machine is working on `stage`.
pub open spec fn ladder_upto(stage: Stage) -> Seq<Stage> {
    match stage {
        Stage::ExactApproach => full_ladder().take(1),
        Stage::AdjacentStand => full_ladder().take(2),
        Stage::OccupyStand => full_ladder().take(3),
    }
}

/// Where the escalator stands between two events.
#[derive(Clone, Copy, Debug, PartialEq, Eq, Structural)]
pub enum EscState {
    /// Not started; expects `Start`.
    Idle,
    /// A path request for `stage` is outstanding; expects `PathArrived`.
    AwaitingPath { stage: Stage },
    /// Walking the targets of `stage`; a fresh sample of the block at
    /// target `index` is outstanding; expects `BlockSampled`.
    SamplingTarget { stage: Stage, index: usize },
    /// The reachability precheck for target `index` passed; its ray cast is
    /// outstanding; expects `RayReturned`.
    AwaitingRay { stage: Stage, index: usize },
    /// Target `index` is reachable; the mining interaction is outstanding;
    /// expects `MineFinished`.
    Mining { stage: Stage, index: usize },
    /// Terminal: a target was mined, or one had already been mined by this
    /// agent.
    Succeeded,
    /// Terminal: every stage and every target was tried without success.
    Failed,
}

/// One event handed back by the caller: the outcome of the action the
/// escalator asked for last.
#[derive(Clone, Copy, Debug, PartialEq, Eq, Structural)]
pub enum EscEvent {
    /// Begin the operation.
    Start,
    /// The path planner reported path-follow completion: the composite goal
    /// was reached, or the planner gave up within its timeout.
    PathArrived,
    /// The requested block was sampled, together with the agent's own
    /// rounded position and rounded eye position, all sampled fresh.
    BlockSampled { block: BlockSample, agent: BlockPos, eye: BlockPos },
    /// The requested ray cast returned.
    RayReturned { hit: RayHit },
    /// The mining interaction on the selected target completed.
    MineFinished,
}

/// The next piece of outside work the caller must perform before handing
/// the escalator its next event.
#[derive(Clone, Copy, Debug, PartialEq, Eq, Structural)]
pub enum EscAction {
    /// Submit a path request for the composite OR-goal of `stage` over all
    /// targets (see [`stage_goals`]), superseding any outstanding request,
    /// then report completion with `PathArrived`.
    RequestPath { stage: Stage },
    /// Sample the block at `pos` and the agent's position, then report with
    /// `BlockSampled`.
    SampleBlock { pos: BlockPos },
    /// Perform the ray cast described by `query`, then report with
    /// `RayReturned`.
    CastRay { query: RayQuery },
    /// Select the best tool for the block at `pos`, face it and mine it,
    /// then report with `MineFinished`.
    Mine { pos: BlockPos },
    /// Terminal: the operation is over; no further event is expected.
    Report { success: bool },
}

/// Which event a state expects; `step` may only be fed a matching event.
pub open spec fn expects(s: EscState, ev: EscEvent) -> bool {
    match s {
        EscState::Idle => ev is Start,
        EscState::AwaitingPath { .. } => ev is PathArrived,
        EscState::SamplingTarget { .. } => ev is BlockSampled,
        EscState::AwaitingRay { .. } => ev is RayReturned,
        EscState::Mining { .. } => ev is MineFinished,
        EscState::Succeeded => false,
        EscState::Failed => false,
    }
}

/// How many ladder stages come after `stage`.
pub open spec fn stages_left(stage: Stage) -> int {
    match stage {
        Stage::ExactApproach => 2,
        Stage::AdjacentStand => 1,
        Stage::OccupyStand => 0,
    }
}

/// The state's target index stays inside the target list.
pub open spec fn index_in_bounds(s: EscState, n_targets: int) -> bool {
    match s {
        EscState::SamplingTarget { index, .. } => index < n_targets,
        EscState::AwaitingRay { index, .. } => index < n_targets,
        EscState::Mining { index, .. } => index < n_targets,
        _ => true,
    }
}

/// An upper bound on how many more events an escalator in state `s` over
/// `n_targets` targets can consume before it reaches a terminal state.
pub open spec fn remaining_events(s: EscState, n_targets: int) -> int {
    let per_stage = 3 * n_targets + 10;
    match s {
        EscState::Idle => 2 * per_stage + 3 * n_targets + 4,
        EscState::AwaitingPath { stage } => stages_left(stage) * per_stage + 3 * n_targets + 3,
        EscState::SamplingTarget { stage, index } => stages_left(stage) * per_stage + 3 * (
        n_targets - index),
        EscState::AwaitingRay { stage, index } => stages_left(stage) * per_stage + 3 * (n_targets
            - index) - 1,
        EscState::Mining { stage, index } => stages_left(stage) * per_stage + 3 * (n_targets
            - index) - 2,
        EscState::Succeeded => 0,
        EscState::Failed => 0,
    }
}

/// Termination law: every transition strictly decreases a nonnegative bound
/// on the events still to come, so an operation never hangs — whatever the
/// environment answers, it reports success or failure after finitely many
/// events.
pub proof fn lemma_step_progress(s: EscState, targets: Seq<BlockPos>, ev: EscEvent)
    requires
        0 < targets.len() <= usize::MAX,
        expects(s, ev),
        index_in_bounds(s, targets.len() as int),
    ensures
        0 <= remaining_events(step_model(s, targets, ev).0, targets.len() as int) < remaining_events(
            s,
            targets.len() as int,
        ),
        index_in_bounds(step_model(s, targets, ev).0, targets.len() as int),
{
    match s {
        EscState::AwaitingPath { stage } | EscState::SamplingTarget { stage, .. }
            | EscState::AwaitingRay { stage, .. } | EscState::Mining { stage, .. } => {
            match stage {
                Stage::ExactApproach => {},
                Stage::AdjacentStand => {},
                Stage::OccupyStand => {},
            }
        },
        _ => {},
    }
}

/// Moving past target `next - 1` within `stage`: try the next target if one
/// is left, otherwise escalate to the next stage, and fail only past the
/// last stage.
pub open spec fn advance_model(stage: Stage, next: int, targets: Seq<BlockPos>) -> (EscState,
    EscAction) {
    if next < targets.len() {
        (
            EscState::SamplingTarget { stage, index: next as usize },
            EscAction::SampleBlock { pos: targets[next] },
        )
    } else {
        match stage {
            Stage::ExactApproach => (
                EscState::AwaitingPath { stage: Stage::AdjacentStand },
                EscAction::RequestPath { stage: Stage::AdjacentStand },
            ),
            Stage::AdjacentStand => (
                EscState::AwaitingPath { stage: Stage::OccupyStand },
                EscAction::RequestPath { stage: Stage::OccupyStand },
            ),
            Stage::OccupyStand => (EscState::Failed, EscAction::Report { success: false }),
        }
    }
}

/// The complete transition relation of the escalator: from a state and the
/// event it expects to the next state and the action to perform.
pub open spec fn step_model(s: EscState, targets: Seq<BlockPos>, ev: EscEvent) -> (EscState,
    EscAction) {
    match s {
        EscState::Idle => (
            EscState::AwaitingPath { stage: Stage::ExactApproach },
            EscAction::RequestPath { stage: Stage::ExactApproach },
        ),
        EscState::AwaitingPath { stage } => (
            EscState::SamplingTarget { stage, index: 0 },
            EscAction::SampleBlock { pos: targets[0] },
        ),
        EscState::SamplingTarget { stage, index } => match ev {
            EscEvent::BlockSampled { block, agent, eye } => {
                if block.is_air {
                    if dist_sq(targets[index as int], agent) < SELF_MINED_RADIUS
                        * SELF_MINED_RADIUS {
                        // The target vanished while this agent stood next to it:
                        // attribute the mining to the agent and finish.
                        (EscState::Succeeded, EscAction::Report { success: true })
                    } else {
                        // Mined by someone else: drop this target, non-fatally.
                        advance_model(stage, index + 1, targets)
                    }
                } else {
                    match can_mine_precheck_spec(targets[index as int], eye, block) {
                        Ok(q) => (EscState::AwaitingRay { stage, index }, EscAction::CastRay {
                            query: q,
                        }),
                        Err(_) => advance_model(stage, index + 1, targets),
                    }
                }
            },
            _ => (s, EscAction::Report { success: false }),
        },
        EscState::AwaitingRay { stage, index } => match ev {
            EscEvent::RayReturned { hit } => {
                if ray_verdict_spec(targets[index as int], hit) is Ok {
                    (EscState::Mining { stage, index }, EscAction::Mine {
                        pos: targets[index as int],
                    })
                } else {
                    advance_model(stage, index + 1, targets)
                }
            },
            _ => (s, EscAction::Report { success: false }),
        },
        EscState::Mining { .. } => (EscState::Succeeded, EscAction::Report { success: true }),
        _ => (s, EscAction::Report { success: false }),
    }
}

/// Drives one `achieve` operation over an ordered, nonempty set of candidate
/// targets.
pub struct ActionEscalator {
    /// The candidate targets, in try order. Order is significant: within a
    /// stage, targets are tried first to last.
    pub targets: Vec<BlockPos>,
    /// Where the machine stands between events.
    pub state: EscState,
    /// History of the stages whose path requests were submitted, in
    /// submission order.
    pub submitted: Ghost<Seq<Stage>>,
}

impl ActionEscalator {
    /// The escalator's invariant: indices stay inside the target list and
    /// the submission history is exactly the ladder prefix the current state
    /// implies. In particular a failed escalator has submitted all three
    /// stages, in ladder order.
    pub open spec fn wf(&self) -> bool {
        &&& self.targets@.len() > 0
        &&& match self.state {
            EscState::Idle => self.submitted@ =~= Seq::<Stage>::empty(),
            EscState::AwaitingPath { stage } => self.submitted@ =~= ladder_upto(stage),
            EscState::SamplingTarget { stage, index } => index < self.targets@.len()
                && self.submitted@ =~= ladder_upto(stage),
            EscState::AwaitingRay { stage, index } => index < self.targets@.len()
                && self.submitted@ =~= ladder_upto(stage),
            EscState::Mining { stage, index } => index < self.targets@.len() && self.submitted@
                =~= ladder_upto(stage),
            EscState::Succeeded => self.submitted@.len() <= 3 && self.submitted@
                =~= full_ladder().take(self.submitted@.len() as int),
            EscState::Failed => self.submitted@ =~= full_ladder(),
        }
    }

    /// Starts an operation over `targets`. An empty target set is a
    /// programmer-contract violation, excluded here rather than reported.
    pub fn new(targets: Vec<BlockPos>) -> (e: ActionEscalator)
        requires
            targets@.len() > 0,
        ensures
            e.wf(),
            e.state == EscState::Idle,
            e.targets == targets,
            e.submitted@ =~= Seq::<Stage>::empty(),
    {
        ActionEscalator { targets, state: EscState::Idle, submitted: Ghost(Seq::empty()) }
    }

    /// The operation's outcome, once the machine is terminal.
    pub fn result(&self) -> (r: Option<Result<(), CantMineAnyError>>)
        ensures
            self.state == EscState::Succeeded ==> r == Some(Ok::<(), CantMineAnyError>(())),
            self.state == EscState::Failed ==> r == Some(
                Err::<(), CantMineAnyError>(CantMineAnyError),
            ),
            !(self.state is Succeeded) && !(self.state is Failed) ==> r is None,
    {
        match self.state {
            EscState::Succeeded => Some(Ok(())),
            EscState::Failed => Some(Err(CantMineAnyError)),
            _ => None,
        }
    }

    /// Feeds the machine the outcome of the previous action and returns the
    /// next action. The transition taken is exactly [`step_model`]; the
    /// submission history grows precisely when a path request is issued.
    pub fn step(&mut self, ev: EscEvent) -> (a: EscAction)
        requires
            old(self).wf(),
            expects(old(self).state, ev),
        ensures
            final(self).wf(),
            final(self).targets == old(self).targets,
            (final(self).state, a) == step_model(old(self).state, old(self).targets@, ev),
            a matches EscAction::RequestPath { stage } ==> final(self).submitted@ =~= old(
                self,
            ).submitted@.push(stage),
            !(a is RequestPath) ==> final(self).submitted@ =~= old(self).submitted@,
    {
        match self.state {
            EscState::Idle => {
                self.state = EscState::AwaitingPath { stage: Stage::ExactApproach };
                self.submitted = Ghost(self.submitted@.push(Stage::ExactApproach));
                EscAction::RequestPath { stage: Stage::ExactApproach }
            },
            EscState::AwaitingPath { stage } => {
                self.state = EscState::SamplingTarget { stage, index: 0 };
                EscAction::SampleBlock { pos: self.targets[0] }
            },
            EscState::SamplingTarget { stage, index } => {
                match ev {
                    EscEvent::BlockSampled { block, agent, eye } => {
                        if block.is_air {
                            let target = self.targets[index];
                            let d = target.distance_squared_to(&agent);
                            if d < (SELF_MINED_RADIUS * SELF_MINED_RADIUS) as i128 {
                                self.state = EscState::Succeeded;
                                EscAction::Report { success: true }
                            } else {
                                self.advance(stage, index)
                            }
                        } else {
                            match can_mine_block(self.targets[index], eye, block) {
                                Ok(q) => {
                                    self.state = EscState::AwaitingRay { stage, index };
                                    EscAction::CastRay { query: q }
                                },
                                Err(_) => self.advance(stage, index),
                            }
                        }
                    },
                    _ => EscAction::Report { success: false },
                }
            },
            EscState::AwaitingRay { stage, index } => {
                match ev {
                    EscEvent::RayReturned { hit } => {
                        match crate::reach::resolve_ray_hit(self.targets[index], hit) {
                            Ok(_) => {
                                self.state = EscState::Mining { stage, index };
                                EscAction::Mine { pos: self.targets[index] }
                            },
                            Err(_) => self.advance(stage, index),
                        }
                    },
                    _ => EscAction::Report { success: false },
                }
            },
            EscState::Mining { .. } => {
                self.state = EscState::Succeeded;
                EscAction::Report { success: true }
            },
            _ => EscAction::Report { success: false },
        }
    }

    /// Moves past the finished target `index`: the next target of the same
    /// stage, the next stage of the ladder, or terminal failure.
    fn advance(&mut self, stage: Stage, index: usize) -> (a: EscAction)
        requires
            old(self).wf(),
            old(self).submitted@ =~= ladder_upto(stage),
            index < old(self).targets@.len(),
        ensures
            final(self).wf(),
            final(self).targets == old(self).targets,
            (final(self).state, a) == advance_model(stage, index + 1, old(self).targets@),
            a matches EscAction::RequestPath { stage: s2 } ==> final(self).submitted@ =~= old(
                self,
            ).submitted@.push(s2),
            !(a is RequestPath) ==> final(self).submitted@ =~= old(self).submitted@,
    {
        let len = self.targets.len();
        let next = index + 1;
        if next < len {
            self.state = EscState::SamplingTarget { stage, index: next };
            EscAction::SampleBlock { pos: self.targets[next] }
        } else {
            match stage {
                Stage::ExactApproach => {
                    self.state = EscState::AwaitingPath { stage: Stage::AdjacentStand };
                    self.submitted = Ghost(self.submitted@.push(Stage::AdjacentStand));
                    EscAction::RequestPath { stage: Stage::AdjacentStand }
                },
                Stage::AdjacentStand => {
                    self.state = EscState::AwaitingPath { stage: Stage::OccupyStand };
                    self.submitted = Ghost(self.submitted@.push(Stage::OccupyStand));
                    EscAction::RequestPath { stage: Stage::OccupyStand }
                },
                Stage::OccupyStand => {
                    self.state = EscState::Failed;
                    EscAction::Report { success: false }
                },
            }
        }
    }
}

/// Escalation order law: the stages whose paths a well-formed escalator has
/// submitted are always an in-order prefix of the fixed ladder — exact
/// approach first, then adjacent stand, then occupy stand, never skipped and
/// never reordered.
pub proof fn lemma_escalation_order(e: &ActionEscalator)
    requires
        e.wf(),
    ensures
        e.submitted@.len() <= 3,
        e.submitted@ =~= full_ladder().take(e.submitted@.len() as int),
{
    match e.state {
        EscState::AwaitingPath { stage } | EscState::SamplingTarget { stage, .. }
            | EscState::AwaitingRay { stage, .. } | EscState::Mining { stage, .. } => {
            match stage {
                Stage::ExactApproach => {},
                Stage::AdjacentStand => {},
                Stage::OccupyStand => {},
            }
        },
        _ => {},
    }
}

/// Ladder exhaustion law: an escalator only fails after submitting all three
/// stages, in ladder order — the `CantMineAnyError` outcome implies every
/// stage was attempted.
pub proof fn lemma_failure_exhausts_ladder(e: &ActionEscalator)
    requires
        e.wf(),
        e.state is Failed,
    ensures
        e.submitted@ =~= full_ladder(),
        e.submitted@.len() == 3,
{
}

} // verus!
