//! Tick-polling pursuit of a moving set of dropped items.
//!
//! [`ItemRetrievalTracker`] drives one attempt to pick up a dropped item of
//! one kind. The caller queries the environment for nearby item sightings,
//! submits a path over them, and then hands the tracker one fresh sample per
//! simulation tick; the tracker decides, in a fixed priority order, whether
//! the pursuit is over, must be re-planned because the environment drifted
//! (an item vanished or moved to another block), or simply continues. The
//! environment mutates between ticks, so every sample must be taken fresh —
//! nothing may be cached across a tick boundary.

use vstd::prelude::*;

use crate::goal::Goal;
use crate::pos::BlockPos;

verus! {

/// Number of update cycles to sit out around a re-planned path request, so
/// the re-plan does not act on a stale snapshot.
pub const REPLAN_SETTLE_UPDATES: u64 = 1;

/// How far out, in blocks, the caller scans for candidate items.
pub const ITEM_SCAN_DISTANCE: u32 = 20;

/// At most this many nearest candidates are pursued at once.
pub const ITEM_SCAN_LIMIT: usize = 5;

/// No candidate item exists: none was found at the start, or every followed
/// candidate vanished mid-pursuit.
#[derive(Clone, Copy, Debug, PartialEq, Eq, Structural)]
pub struct NoItemsError;

/// One sighted dropped item: the stable handle the environment gave it, and
/// its position discretized to block granularity.
#[derive(Clone, Copy, Debug, PartialEq, Eq, Structural)]
pub struct ItemSighting {
    pub id: u64,
    pub pos: BlockPos,
}

/// Everything the tracker reads of one simulation tick, sampled fresh by the
/// caller immediately before the call.
pub struct TickSample {
    /// The tick source has closed (or failed): the environment is shutting
    /// down.
    pub closed: bool,
    /// How many items of the pursued kind the agent holds now.
    pub held_count: i32,
    /// The path-follow reports the composite goal as reached.
    pub goal_reached: bool,
    /// Fresh query for the nearest items of the pursued kind, ascending by
    /// distance.
    pub sightings: Vec<ItemSighting>,
}

/// Where the pursuit stands.
#[derive(Clone, Copy, Debug, PartialEq, Eq, Structural)]
pub enum TrackState {
    /// Following the followed sightings; expects one `tick` per simulation
    /// step.
    Pursuing,
    /// Terminal: the pursuit resolved successfully.
    Succeeded,
    /// Terminal: no items are left to pursue.
    Exhausted,
}

/// What the caller must do after one tick.
#[derive(Clone, Copy, Debug, PartialEq, Eq, Structural)]
pub enum TrackAction {
    /// Submit a path request for the composite occupy goal over the followed
    /// sightings (see [`ItemRetrievalTracker::pursuit_goals`]), superseding
    /// any outstanding request.
    RequestPath,
    /// Terminal success by pickup: cancel the outstanding path request.
    CancelPath,
    /// The environment drifted: cancel the current path, wait
    /// [`REPLAN_SETTLE_UPDATES`] update cycles, submit a fresh path over the
    /// refreshed sightings, and keep ticking.
    Replan,
    /// Terminal; nothing to cancel. `reached_without_pickup` flags the
    /// suspect case where the goal was reached but no item was gained, which
    /// still counts as success but deserves a diagnostic warning.
    Finish { reached_without_pickup: bool },
    /// Nothing to do until the next tick.
    Wait,
}

/// True when `s` contains a sighting with handle `id`.
pub open spec fn has_id(s: Seq<ItemSighting>, id: u64) -> bool {
    exists|j: int| 0 <= j < s.len() && s[j].id == id
}

/// True when some previously followed item no longer appears in the fresh
/// query.
pub open spec fn any_missing(prev: Seq<ItemSighting>, now: Seq<ItemSighting>) -> bool {
    exists|i: int| 0 <= i < prev.len() && !has_id(now, prev[i].id)
}

/// True when some freshly queried position differs, at block granularity,
/// from the previously followed position at the same rank.
pub open spec fn any_moved(prev: Seq<ItemSighting>, now: Seq<ItemSighting>) -> bool {
    exists|i: int| 0 <= i < prev.len() && 0 <= i < now.len() && now[i].pos != prev[i].pos
}

/// The environment drifted away from the followed snapshot.
pub open spec fn drifted(prev: Seq<ItemSighting>, now: Seq<ItemSighting>) -> bool {
    any_missing(prev, now) || any_moved(prev, now)
}

/// Drives one `retrieve` operation for a single item kind.
pub struct ItemRetrievalTracker {
    /// The pursued item kind, as the caller's registry numbers it. The
    /// tracker never interprets it; it is carried so the caller queries for
    /// the right kind.
    pub kind: u32,
    /// How many items of the kind the agent held when the pursuit began;
    /// holding more than this means an item was picked up.
    pub baseline: i32,
    /// The sightings the current path request was made over.
    pub followed: Vec<ItemSighting>,
    /// Where the pursuit stands.
    pub state: TrackState,
}

impl ItemRetrievalTracker {
    /// The tracker's invariant: while pursuing, at least one sighting is
    /// followed.
    pub open spec fn wf(&self) -> bool {
        self.state is Pursuing ==> self.followed@.len() > 0
    }

    /// Starts a pursuit of `kind` from an initial query result and the
    /// agent's current held count. An empty initial query fails immediately
    /// with nothing to cancel; otherwise the caller must submit the first
    /// path request.
    pub fn start(kind: u32, baseline: i32, sightings: Vec<ItemSighting>) -> (r: (
        ItemRetrievalTracker,
        TrackAction,
    ))
        ensures
            r.0.wf(),
            r.0.kind == kind,
            r.0.baseline == baseline,
            sightings@.len() == 0 ==> r.0.state is Exhausted && r.1 == (TrackAction::Finish {
                reached_without_pickup: false,
            }),
            sightings@.len() > 0 ==> r.0.state is Pursuing && r.0.followed == sightings && r.1
                == TrackAction::RequestPath,
    {
        if sightings.len() == 0 {
            (
                ItemRetrievalTracker { kind, baseline, followed: sightings, state: TrackState::Exhausted },
                TrackAction::Finish { reached_without_pickup: false },
            )
        } else {
            (
                ItemRetrievalTracker { kind, baseline, followed: sightings, state: TrackState::Pursuing },
                TrackAction::RequestPath,
            )
        }
    }

    /// The pursuit's outcome, once the tracker is terminal.
    pub fn result(&self) -> (r: Option<Result<(), NoItemsError>>)
        ensures
            self.state is Succeeded ==> r == Some(Ok::<(), NoItemsError>(())),
            self.state is Exhausted ==> r == Some(Err::<(), NoItemsError>(NoItemsError)),
            self.state is Pursuing ==> r is None,
    {
        match self.state {
            TrackState::Succeeded => Some(Ok(())),
            TrackState::Exhausted => Some(Err(NoItemsError)),
            TrackState::Pursuing => None,
        }
    }

    /// The member goals of the composite OR-goal over the followed
    /// sightings: stand in the block each item lies in.
    pub fn pursuit_goals(&self) -> (gs: Vec<Goal>)
        ensures
            gs@.len() == self.followed@.len(),
            forall|i: int| 0 <= i < gs@.len() ==> gs@[i] == (Goal::OccupyStand {
                target: self.followed@[i].pos,
            }),
    {
        let mut gs: Vec<Goal> = Vec::new();
        let mut i: usize = 0;
        while i < self.followed.len()
            invariant
                i <= self.followed@.len(),
                gs@.len() == i,
                forall|j: int| 0 <= j < i ==> gs@[j] == (Goal::OccupyStand {
                    target: self.followed@[j].pos,
                }),
            decreases self.followed@.len() - i,
        {
            gs.push(Goal::OccupyStand { target: self.followed[i].pos });
            i = i + 1;
        }
        gs
    }

    /// Consumes one tick. The conditions are checked in a fixed priority
    /// order: source closed, item gained, goal reached without gain, no
    /// items left, environment drift, otherwise keep waiting. Exactly the
    /// first condition that holds decides the step.
    pub fn tick(&mut self, s: &TickSample) -> (a: TrackAction)
        requires
            old(self).wf(),
            old(self).state is Pursuing,
        ensures
            final(self).wf(),
            final(self).kind == old(self).kind,
            final(self).baseline == old(self).baseline,
            s.closed ==> final(self).state is Succeeded && a == (TrackAction::Finish {
                reached_without_pickup: false,
            }),
            !s.closed && s.held_count > old(self).baseline ==> final(self).state is Succeeded && a
                == TrackAction::CancelPath,
            !s.closed && s.held_count <= old(self).baseline && s.goal_reached
                ==> final(self).state is Succeeded && a == (TrackAction::Finish {
                reached_without_pickup: true,
            }),
            !s.closed && s.held_count <= old(self).baseline && !s.goal_reached
                && s.sightings@.len() == 0 ==> final(self).state is Exhausted && a
                == (TrackAction::Finish { reached_without_pickup: false }),
            !s.closed && s.held_count <= old(self).baseline && !s.goal_reached
                && s.sightings@.len() > 0 && drifted(old(self).followed@, s.sightings@)
                ==> final(self).state is Pursuing && final(self).followed@ =~= s.sightings@ && a
                == TrackAction::Replan,
            !s.closed && s.held_count <= old(self).baseline && !s.goal_reached
                && s.sightings@.len() > 0 && !drifted(old(self).followed@, s.sightings@)
                ==> final(self).state is Pursuing && final(self).followed == old(self).followed
                && a == TrackAction::Wait,
    {
        if s.closed {
            self.state = TrackState::Succeeded;
            return TrackAction::Finish { reached_without_pickup: false };
        }
        if s.held_count > self.baseline {
            self.state = TrackState::Succeeded;
            return TrackAction::CancelPath;
        }
        if s.goal_reached {
            self.state = TrackState::Succeeded;
            return TrackAction::Finish { reached_without_pickup: true };
        }
        if s.sightings.len() == 0 {
            self.state = TrackState::Exhausted;
            return TrackAction::Finish { reached_without_pickup: false };
        }
        if detect_missing(&self.followed, &s.sightings) || detect_moved(&self.followed, &s.sightings)
        {
            self.followed = clone_sightings(&s.sightings);
            return TrackAction::Replan;
        }
        TrackAction::Wait
    }
}

/// True when `v` contains a sighting with handle `id`.
fn contains_id(v: &Vec<ItemSighting>, id: u64) -> (b: bool)
    ensures
        b == has_id(v@, id),
{
    let mut j: usize = 0;
    while j < v.len()
        invariant
            j <= v@.len(),
            forall|k: int| 0 <= k < j ==> v@[k].id != id,
        decreases v@.len() - j,
    {
        if v[j].id == id {
            return true;
        }
        j = j + 1;
    }
    false
}

/// True when some previously followed sighting is absent from the fresh
/// query.
fn detect_missing(prev: &Vec<ItemSighting>, now: &Vec<ItemSighting>) -> (b: bool)
    ensures
        b == any_missing(prev@, now@),
{
    let mut i: usize = 0;
    while i < prev.len()
        invariant
            i <= prev@.len(),
            forall|k: int| 0 <= k < i ==> has_id(now@, prev@[k].id),
        decreases prev@.len() - i,
    {
        if !contains_id(now, prev[i].id) {
            return true;
        }
        i = i + 1;
    }
    false
}

/// True when some fresh position differs from the followed one at the same
/// rank.
fn detect_moved(prev: &Vec<ItemSighting>, now: &Vec<ItemSighting>) -> (b: bool)
    ensures
        b == any_moved(prev@, now@),
{
    let mut i: usize = 0;
    let bound = if prev.len() < now.len() {
        prev.len()
    } else {
        now.len()
    };
    while i < bound
        invariant
            bound <= prev@.len(),
            bound <= now@.len(),
            bound == if prev@.len() < now@.len() {
                prev@.len()
            } else {
                now@.len()
            },
            i <= bound,
            forall|k: int| 0 <= k < i ==> now@[k].pos == prev@[k].pos,
        decreases bound - i,
    {
        if now[i].pos != prev[i].pos {
            return true;
        }
        i = i + 1;
    }
    false
}

/// A copy of a sighting list, element for element.
fn clone_sightings(v: &Vec<ItemSighting>) -> (r: Vec<ItemSighting>)
    ensures
        r@ =~= v@,
{
    let mut r: Vec<ItemSighting> = Vec::new();
    let mut i: usize = 0;
    while i < v.len()
        invariant
            i <= v@.len(),
            r@ =~= v@.take(i as int),
        decreases v@.len() - i,
    {
        r.push(v[i]);
        i = i + 1;
    }
    proof {
        assert(v@.take(v@.len() as int) =~= v@);
    }
    r
}

} // verus!
