//! Which entities an operation is aimed at.

use vstd::prelude::*;

verus! {

/// A single entity target: a specific entity kind, a specific entity id, a
/// player by name, or a whole class of entities.
#[derive(Clone, Debug, PartialEq, Eq)]
pub enum EntityTarget {
    EntityKind(u32),
    EntityId(u32),
    PlayerName(String),
    AllMonsters,
    AllPlayers,
}

/// A collection of entity targets, used to test whether a sighted entity is
/// one the operation is after.
#[derive(Clone, Debug, PartialEq, Eq)]
pub struct EntityTargets {
    pub list: Vec<EntityTarget>,
}

impl EntityTargets {
    pub fn new(targets: Vec<EntityTarget>) -> (t: EntityTargets)
        ensures
            t.list == targets,
    {
        EntityTargets { list: targets }
    }
}

/// What the membership test reads of one sighted entity: its kind and id
/// where known, the profile name when it is a player, and whether it is a
/// monster.
pub struct EntityFacts {
    pub kind: Option<u32>,
    pub entity_id: Option<u32>,
    pub player_name: Option<String>,
    pub is_monster: bool,
}

/// Whether one target designates the sighted entity.
pub open spec fn target_matches(t: EntityTarget, f: EntityFacts) -> bool {
    match t {
        EntityTarget::EntityKind(k) => f.kind == Some(k),
        EntityTarget::EntityId(id) => f.entity_id == Some(id),
        EntityTarget::PlayerName(name) => f.player_name matches Some(n) && n@ == name@,
        EntityTarget::AllMonsters => f.is_monster,
        EntityTarget::AllPlayers => f.player_name is Some,
    }
}

/// Whether any target in the list designates the sighted entity.
pub open spec fn in_targets(ts: Seq<EntityTarget>, f: EntityFacts) -> bool {
    exists|i: int| 0 <= i < ts.len() && target_matches(ts[i], f)
}

/// Checks whether the sighted entity is designated by any of the targets.
pub fn is_entity_in_targets(facts: &EntityFacts, targets: &EntityTargets) -> (b: bool)
    ensures
        b == in_targets(targets.list@, *facts),
{
    let mut i: usize = 0;
    while i < targets.list.len()
        invariant
            i <= targets.list@.len(),
            forall|k: int| 0 <= k < i ==> !target_matches(targets.list@[k], *facts),
        decreases targets.list@.len() - i,
    {
        let hit = match &targets.list[i] {
            EntityTarget::EntityKind(k) => {
                match &facts.kind {
                    Some(fk) => *fk == *k,
                    None => false,
                }
            },
            EntityTarget::EntityId(id) => {
                match &facts.entity_id {
                    Some(fid) => *fid == *id,
                    None => false,
                }
            },
            EntityTarget::PlayerName(name) => {
                match &facts.player_name {
                    Some(n) => *n == *name,
                    None => false,
                }
            },
            EntityTarget::AllMonsters => facts.is_monster,
            EntityTarget::AllPlayers => facts.player_name.is_some(),
        };
        if hit {
            return true;
        }
        i = i + 1;
    }
    false
}

} // verus!
