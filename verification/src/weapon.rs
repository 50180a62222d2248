//! Weapon scoring over hotbar slots.
//!
//! Damage and attack speed are fixed-point numbers in tenths (a sword doing
//! 6.5 damage at 1.6 swings per second has `damage == 65` and
//! `attack_speed == 16`). The scoring table is immutable configuration data
//! injected by the caller, not global state. All derived scores are exact
//! integers at a fixed scale, so comparing them orders items exactly as the
//! underlying rational damage-per-second values do.

use vstd::prelude::*;

use crate::inventory::ItemStack;

verus! {

/// Damage of a bare fist, in tenths.
pub const FIST_DAMAGE: u32 = 10;

/// Attack speed of a bare fist, in tenths of swings per second.
pub const FIST_ATTACK_SPEED: u32 = 40;

/// Reduced damage assumed for an unknown item that has durability, in
/// tenths: swinging a tool wears it down, so such items score below a fist.
pub const DURABILITY_ITEM_DAMAGE: u32 = 8;

/// Attack-speed cap imposed by invulnerability frames, in tenths: a hit
/// victim takes no damage for half a second, so effective speed never
/// exceeds two swings per second.
pub const CAPPED_ATTACK_SPEED: u32 = 20;

/// Largest damage or attack-speed value a well-formed table entry may hold,
/// in tenths. Keeps every derived score comfortably inside `u64`.
pub const MAX_STAT: u32 = 10000;

/// Damage and attack speed of one item kind, in tenths.
#[derive(Clone, Copy, Debug, PartialEq, Eq, Structural)]
pub struct WeaponStats {
    pub kind: u32,
    pub damage: u32,
    pub attack_speed: u32,
}

/// A well-formed entry keeps both statistics within [`MAX_STAT`].
pub open spec fn stats_wf(s: WeaponStats) -> bool {
    s.damage <= MAX_STAT && s.attack_speed <= MAX_STAT
}

/// The injected scoring table: damage and attack speed per known item kind.
/// Earlier entries win when a kind is listed twice.
pub struct WeaponTable {
    pub entries: Vec<WeaponStats>,
}

impl WeaponTable {
    /// Every entry is well-formed.
    pub open spec fn wf(&self) -> bool {
        forall|i: int| 0 <= i < self.entries@.len() ==> stats_wf(#[trigger] self.entries@[i])
    }

    pub fn new(entries: Vec<WeaponStats>) -> (t: WeaponTable)
        requires
            forall|i: int| 0 <= i < entries@.len() ==> stats_wf(#[trigger] entries@[i]),
        ensures
            t.wf(),
            t.entries == entries,
    {
        WeaponTable { entries }
    }
}

/// The first table entry for `kind`, if any.
pub open spec fn lookup(entries: Seq<WeaponStats>, kind: u32) -> Option<WeaponStats>
    decreases entries.len(),
{
    if entries.len() == 0 {
        None
    } else if entries[0].kind == kind {
        Some(entries[0])
    } else {
        lookup(entries.drop_first(), kind)
    }
}

/// Damage and attack speed attributed to one slot, in tenths: the table
/// entry for a known kind; reduced damage for an unknown item with
/// durability; a bare fist otherwise (also for an empty slot).
pub open spec fn item_stats(entries: Seq<WeaponStats>, item: ItemStack) -> (u32, u32) {
    match item {
        ItemStack::Empty => (FIST_DAMAGE, FIST_ATTACK_SPEED),
        ItemStack::Present { kind, has_durability, .. } => match lookup(entries, kind) {
            Some(s) => (s.damage, s.attack_speed),
            None => if has_durability {
                (DURABILITY_ITEM_DAMAGE, FIST_ATTACK_SPEED)
            } else {
                (FIST_DAMAGE, FIST_ATTACK_SPEED)
            },
        },
    }
}

/// Attack speed after the invulnerability-frame cap, in tenths.
pub open spec fn capped_speed(speed: u32) -> int {
    if speed <= CAPPED_ATTACK_SPEED {
        speed as int
    } else {
        CAPPED_ATTACK_SPEED as int
    }
}

/// Damage per second ignoring invulnerability frames, in hundredths.
pub open spec fn dps_score(entries: Seq<WeaponStats>, item: ItemStack) -> int {
    item_stats(entries, item).0 * item_stats(entries, item).1
}

/// Damage per second with the attack speed capped by invulnerability
/// frames, in hundredths.
pub open spec fn dps_capped_score(entries: Seq<WeaponStats>, item: ItemStack) -> int {
    item_stats(entries, item).0 * capped_speed(item_stats(entries, item).1)
}

/// The preference score used to rank weapons: the mean of capped and
/// uncapped damage per second, boosted by a tenth of the capped speed to
/// prefer faster weapons. Scaled by 20000 relative to damage per second, so
/// comparisons order items exactly as the rational formula does.
pub open spec fn dps_fancy_score(entries: Seq<WeaponStats>, item: ItemStack) -> int {
    let d = item_stats(entries, item).0 as int;
    let s = item_stats(entries, item).1 as int;
    let c = capped_speed(item_stats(entries, item).1);
    d * (s + c) * (100 + c)
}

/// Executable lookup of the damage and attack speed of one slot, in tenths.
pub fn get_damage_and_attack_speed_durability(table: &WeaponTable, item: &ItemStack) -> (r: (
    u32,
    u32,
))
    ensures
        r == item_stats(table.entries@, *item),
{
    match *item {
        ItemStack::Empty => (FIST_DAMAGE, FIST_ATTACK_SPEED),
        ItemStack::Present { kind, count, has_durability } => {
            let mut i: usize = 0;
            proof {
                assert(table.entries@.skip(0) =~= table.entries@);
            }
            while i < table.entries.len()
                invariant
                    *item == (ItemStack::Present { kind, count, has_durability }),
                    i <= table.entries@.len(),
                    lookup(table.entries@, kind) == lookup(table.entries@.skip(i as int), kind),
                decreases table.entries@.len() - i,
            {
                proof {
                    assert(table.entries@.skip(i as int)[0] == table.entries@[i as int]);
                    assert(table.entries@.skip(i as int).drop_first() =~= table.entries@.skip(
                        i as int + 1,
                    ));
                }
                let e = table.entries[i];
                if e.kind == kind {
                    proof {
                        assert(table.entries@.skip(i as int).len() > 0);
                        assert(lookup(table.entries@.skip(i as int), kind) == Some(e));
                    }
                    return (e.damage, e.attack_speed);
                }
                i = i + 1;
            }
            proof {
                assert(table.entries@.skip(i as int) =~= Seq::<WeaponStats>::empty());
            }
            if has_durability {
                (DURABILITY_ITEM_DAMAGE, FIST_ATTACK_SPEED)
            } else {
                (FIST_DAMAGE, FIST_ATTACK_SPEED)
            }
        },
    }
}

/// The slot's damage per second ignoring invulnerability frames, in
/// hundredths.
pub fn get_dps(table: &WeaponTable, item: &ItemStack) -> (r: u64)
    requires
        table.wf(),
    ensures
        r == dps_score(table.entries@, *item),
{
    let (d, s) = get_damage_and_attack_speed_durability(table, item);
    proof {
        lemma_item_stats_wf(table, *item);
        assert((d as int) * (s as int) <= 0x5F5_E100) by (nonlinear_arith)
            requires
                d <= 10000 && s <= 10000,
        ;
    }
    (d as u64) * (s as u64)
}

/// The slot's damage per second with the invulnerability-frame speed cap,
/// in hundredths.
pub fn get_dps_capped(table: &WeaponTable, item: &ItemStack) -> (r: u64)
    requires
        table.wf(),
    ensures
        r == dps_capped_score(table.entries@, *item),
{
    let (d, s) = get_damage_and_attack_speed_durability(table, item);
    let c = if s <= CAPPED_ATTACK_SPEED {
        s
    } else {
        CAPPED_ATTACK_SPEED
    };
    proof {
        lemma_item_stats_wf(table, *item);
        assert((d as int) * (c as int) <= 0x5F5_E100) by (nonlinear_arith)
            requires
                d <= 10000 && c <= 10000,
        ;
    }
    (d as u64) * (c as u64)
}

/// The slot's weapon-preference score (see [`dps_fancy_score`]).
pub fn get_dps_fancy(table: &WeaponTable, item: &ItemStack) -> (r: u64)
    requires
        table.wf(),
    ensures
        r == dps_fancy_score(table.entries@, *item),
{
    let (d, s) = get_damage_and_attack_speed_durability(table, item);
    let c = if s <= CAPPED_ATTACK_SPEED {
        s
    } else {
        CAPPED_ATTACK_SPEED
    };
    proof {
        lemma_item_stats_wf(table, *item);
    }
    let sum: u64 = s as u64 + c as u64;
    let boost: u64 = 100 + c as u64;
    proof {
        assert((sum as int) * (boost as int) <= 0x24_BE80 && (d as int) * (sum as int) * (
        boost as int) <= 0xffff_ffff_ffff_ffff && (d as int) * (sum as int) * (boost as int) == (
        d as int) * ((sum as int) * (boost as int))) by (nonlinear_arith)
            requires
                d <= 10000 && sum <= 20020 && boost <= 120,
        ;
    }
    (d as u64) * (sum * boost)
}

/// The stats attributed to any slot by a well-formed table stay within the
/// fist/table bounds, so every derived score fits its type.
proof fn lemma_item_stats_wf(table: &WeaponTable, item: ItemStack)
    requires
        table.wf(),
    ensures
        item_stats(table.entries@, item).0 <= MAX_STAT,
        item_stats(table.entries@, item).1 <= MAX_STAT,
{
    match item {
        ItemStack::Present { kind, .. } => {
            if lookup(table.entries@, kind) is Some {
                lemma_lookup_wf(table.entries@, kind);
            }
        },
        ItemStack::Empty => {},
    }
}

/// A successful lookup in a well-formed entry list returns a well-formed
/// entry.
proof fn lemma_lookup_wf(entries: Seq<WeaponStats>, kind: u32)
    requires
        forall|i: int| 0 <= i < entries.len() ==> stats_wf(#[trigger] entries[i]),
        lookup(entries, kind) is Some,
    ensures
        stats_wf(lookup(entries, kind)->0),
    decreases entries.len(),
{
    if entries.len() > 0 && entries[0].kind != kind {
        assert(forall|i: int|
            0 <= i < entries.drop_first().len() ==> stats_wf(#[trigger] entries.drop_first()[i]));
        lemma_lookup_wf(entries.drop_first(), kind);
    }
}

/// Index of the best weapon in the hotbar: the slot whose preference score
/// is maximal, the last such slot when several tie. The hotbar is never
/// empty; an empty slot scores as a bare fist.
pub fn best_weapon_in_hotbar(table: &WeaponTable, hotbar: &Vec<ItemStack>) -> (best: usize)
    requires
        table.wf(),
        hotbar@.len() > 0,
    ensures
        best < hotbar@.len(),
        forall|i: int|
            0 <= i < hotbar@.len() ==> dps_fancy_score(table.entries@, hotbar@[i])
                <= dps_fancy_score(table.entries@, hotbar@[best as int]),
        forall|i: int|
            best < i < hotbar@.len() ==> dps_fancy_score(table.entries@, hotbar@[i])
                < dps_fancy_score(table.entries@, hotbar@[best as int]),
{
    let mut best: usize = 0;
    let mut best_score: u64 = get_dps_fancy(table, &hotbar[0]);
    let mut i: usize = 1;
    while i < hotbar.len()
        invariant
            table.wf(),
            1 <= i <= hotbar@.len(),
            best < i,
            best_score == dps_fancy_score(table.entries@, hotbar@[best as int]),
            forall|j: int|
                0 <= j < i ==> dps_fancy_score(table.entries@, hotbar@[j]) <= best_score,
            forall|j: int|
                best < j < i ==> dps_fancy_score(table.entries@, hotbar@[j]) < best_score,
        decreases hotbar@.len() - i,
    {
        let score = get_dps_fancy(table, &hotbar[i]);
        if score >= best_score {
            best = i;
            best_score = score;
        }
        i = i + 1;
    }
    best
}

} // verus!
