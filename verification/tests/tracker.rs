use lickbot::goal::Goal;
use lickbot::pos::BlockPos;
use lickbot::retrieve::{
    ItemRetrievalTracker, ItemSighting, NoItemsError, TickSample, TrackAction,
};

fn p(x: i32, y: i32, z: i32) -> BlockPos {
    BlockPos::new(x, y, z)
}

fn sighting(id: u64, x: i32, y: i32, z: i32) -> ItemSighting {
    ItemSighting { id, pos: p(x, y, z) }
}

fn quiet_tick(sightings: Vec<ItemSighting>) -> TickSample {
    TickSample { closed: false, held_count: 0, goal_reached: false, sightings }
}

#[test]
fn empty_initial_query_fails_with_no_items() {
    let (tracker, action) = ItemRetrievalTracker::start(7, 0, vec![]);
    assert_eq!(action, TrackAction::Finish { reached_without_pickup: false });
    assert_eq!(tracker.result(), Some(Err(NoItemsError)));
}

#[test]
fn pickup_resolves_exactly_at_the_tick_the_count_rises() {
    let items = vec![sighting(1, 3, 0, 3)];
    let (mut tracker, action) = ItemRetrievalTracker::start(7, 0, items.clone());
    assert_eq!(action, TrackAction::RequestPath);

    // Ticks one and two: nothing gained, nothing moved — keep waiting.
    assert_eq!(tracker.tick(&quiet_tick(items.clone())), TrackAction::Wait);
    assert_eq!(tracker.result(), None);
    assert_eq!(tracker.tick(&quiet_tick(items.clone())), TrackAction::Wait);
    assert_eq!(tracker.result(), None);

    // Tick three: the held count rises above the baseline — success now.
    let gained = TickSample { closed: false, held_count: 1, goal_reached: false, sightings: items };
    assert_eq!(tracker.tick(&gained), TrackAction::CancelPath);
    assert_eq!(tracker.result(), Some(Ok(())));
}

#[test]
fn vanished_last_item_fails_with_no_items() {
    let items = vec![sighting(1, 3, 0, 3)];
    let (mut tracker, action) = ItemRetrievalTracker::start(7, 0, items.clone());
    assert_eq!(action, TrackAction::RequestPath);

    // Tick one: the item is still there.
    assert_eq!(tracker.tick(&quiet_tick(items)), TrackAction::Wait);

    // Tick two: it vanished before the goal was reached; the fresh query is
    // empty.
    assert_eq!(
        tracker.tick(&quiet_tick(vec![])),
        TrackAction::Finish { reached_without_pickup: false }
    );
    assert_eq!(tracker.result(), Some(Err(NoItemsError)));
}

#[test]
fn moved_item_triggers_a_replan_over_fresh_positions() {
    let items = vec![sighting(1, 3, 0, 3), sighting(2, 4, 0, 4)];
    let (mut tracker, _) = ItemRetrievalTracker::start(7, 0, items);

    // The first item rolled into another block.
    let moved = vec![sighting(1, 3, 0, 4), sighting(2, 4, 0, 4)];
    assert_eq!(tracker.tick(&quiet_tick(moved.clone())), TrackAction::Replan);
    assert_eq!(tracker.result(), None);

    // The pursuit goals now stand in the refreshed blocks.
    let goals = tracker.pursuit_goals();
    assert_eq!(
        goals,
        vec![
            Goal::OccupyStand { target: p(3, 0, 4) },
            Goal::OccupyStand { target: p(4, 0, 4) },
        ]
    );
}

#[test]
fn missing_item_triggers_a_replan() {
    let items = vec![sighting(1, 3, 0, 3), sighting(2, 4, 0, 4)];
    let (mut tracker, _) = ItemRetrievalTracker::start(7, 0, items);

    // Item 1 disappeared but item 2 is still around (same position, now
    // first in the query): the environment drifted.
    let remaining = vec![sighting(2, 4, 0, 4)];
    assert_eq!(tracker.tick(&quiet_tick(remaining)), TrackAction::Replan);
    assert_eq!(tracker.result(), None);
}

#[test]
fn goal_reached_without_pickup_still_succeeds_with_a_warning() {
    let items = vec![sighting(1, 3, 0, 3)];
    let (mut tracker, _) = ItemRetrievalTracker::start(7, 0, items.clone());
    let reached = TickSample { closed: false, held_count: 0, goal_reached: true, sightings: items };
    assert_eq!(tracker.tick(&reached), TrackAction::Finish { reached_without_pickup: true });
    assert_eq!(tracker.result(), Some(Ok(())));
}

#[test]
fn closed_tick_source_resolves_promptly_as_success() {
    let items = vec![sighting(1, 3, 0, 3)];
    let (mut tracker, _) = ItemRetrievalTracker::start(7, 0, items.clone());
    let closed = TickSample { closed: true, held_count: 0, goal_reached: false, sightings: items };
    assert_eq!(tracker.tick(&closed), TrackAction::Finish { reached_without_pickup: false });
    assert_eq!(tracker.result(), Some(Ok(())));
}

#[test]
fn baseline_is_strict_no_success_on_equal_count() {
    let items = vec![sighting(1, 3, 0, 3)];
    let (mut tracker, _) = ItemRetrievalTracker::start(7, 5, items.clone());
    let tick = TickSample { closed: false, held_count: 5, goal_reached: false, sightings: items };
    assert_eq!(tracker.tick(&tick), TrackAction::Wait);
    assert_eq!(tracker.result(), None);
}
