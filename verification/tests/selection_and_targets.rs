use lickbot::pos::BlockPos;
use lickbot::retrieve::ItemSighting;
use lickbot::select::nearest_items_by_distance;
use lickbot::targets::{is_entity_in_targets, EntityFacts, EntityTarget, EntityTargets};

fn p(x: i32, y: i32, z: i32) -> BlockPos {
    BlockPos::new(x, y, z)
}

fn sighting(id: u64, x: i32, y: i32, z: i32) -> ItemSighting {
    ItemSighting { id, pos: p(x, y, z) }
}

#[test]
fn nearest_items_are_sorted_filtered_and_limited() {
    let origin = p(0, 0, 0);
    let candidates = vec![
        sighting(1, 9, 0, 0),   // distance 9
        sighting(2, 0, 2, 0),   // distance 2
        sighting(3, 0, 0, 30),  // out of the 20-block scan range
        sighting(4, 5, 0, 0),   // distance 5
        sighting(5, 0, 1, 0),   // distance 1
        sighting(6, 0, 0, 7),   // distance 7
    ];
    let picked = nearest_items_by_distance(&candidates, origin, 20, 4);
    let ids: Vec<u64> = picked.iter().map(|s| s.id).collect();
    // The four nearest in-range items, ascending by distance; item 9 blocks
    // away is left out, the out-of-range one never qualifies.
    assert_eq!(ids, vec![5, 2, 4, 6]);
}

#[test]
fn nearest_items_returns_all_in_range_when_fewer_than_limit() {
    let origin = p(0, 0, 0);
    let candidates = vec![sighting(1, 2, 0, 0), sighting(2, 50, 0, 0)];
    let picked = nearest_items_by_distance(&candidates, origin, 20, 5);
    assert_eq!(picked.len(), 1);
    assert_eq!(picked[0].id, 1);
}

#[test]
fn nearest_items_respects_the_boundary_of_the_scan_range() {
    let origin = p(0, 0, 0);
    // Squared distance 400 == 20 * 20: exactly on the boundary, kept.
    let candidates = vec![sighting(1, 20, 0, 0), sighting(2, 21, 0, 0)];
    let picked = nearest_items_by_distance(&candidates, origin, 20, 5);
    assert_eq!(picked.len(), 1);
    assert_eq!(picked[0].id, 1);
}

fn monster_facts() -> EntityFacts {
    EntityFacts { kind: Some(50), entity_id: Some(1234), player_name: None, is_monster: true }
}

fn player_facts(name: &str) -> EntityFacts {
    EntityFacts {
        kind: Some(120),
        entity_id: Some(99),
        player_name: Some(name.to_string()),
        is_monster: false,
    }
}

#[test]
fn all_monsters_matches_monsters_only() {
    let targets = EntityTargets::new(vec![EntityTarget::AllMonsters]);
    assert!(is_entity_in_targets(&monster_facts(), &targets));
    assert!(!is_entity_in_targets(&player_facts("alice"), &targets));
}

#[test]
fn all_players_matches_anyone_with_a_profile() {
    let targets = EntityTargets::new(vec![EntityTarget::AllPlayers]);
    assert!(is_entity_in_targets(&player_facts("alice"), &targets));
    assert!(!is_entity_in_targets(&monster_facts(), &targets));
}

#[test]
fn player_name_target_matches_exactly_that_player() {
    let targets = EntityTargets::new(vec![EntityTarget::PlayerName("alice".to_string())]);
    assert!(is_entity_in_targets(&player_facts("alice"), &targets));
    assert!(!is_entity_in_targets(&player_facts("bob"), &targets));
}

#[test]
fn kind_and_id_targets_match_their_entity() {
    let by_kind = EntityTargets::new(vec![EntityTarget::EntityKind(50)]);
    assert!(is_entity_in_targets(&monster_facts(), &by_kind));
    assert!(!is_entity_in_targets(&player_facts("alice"), &by_kind));

    let by_id = EntityTargets::new(vec![EntityTarget::EntityId(1234)]);
    assert!(is_entity_in_targets(&monster_facts(), &by_id));
    assert!(!is_entity_in_targets(&player_facts("alice"), &by_id));
}

#[test]
fn any_target_in_the_list_suffices() {
    let targets = EntityTargets::new(vec![
        EntityTarget::PlayerName("bob".to_string()),
        EntityTarget::AllMonsters,
    ]);
    assert!(is_entity_in_targets(&monster_facts(), &targets));
    assert!(is_entity_in_targets(&player_facts("bob"), &targets));
    assert!(!is_entity_in_targets(&player_facts("alice"), &targets));
}

#[test]
fn empty_target_list_matches_nothing() {
    let targets = EntityTargets::new(vec![]);
    assert!(!is_entity_in_targets(&monster_facts(), &targets));
}
