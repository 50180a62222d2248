//! What the library reads of inventory slots.

use vstd::prelude::*;

verus! {

/// One inventory slot: empty, or a stack of `count` items of one kind.
/// `has_durability` records whether the stack carries a durability
/// component, which the weapon scoring consults for items it does not know.
#[derive(Clone, Copy, Debug, PartialEq, Eq, Structural)]
pub enum ItemStack {
    Empty,
    Present { kind: u32, count: i32, has_durability: bool },
}

/// How many items of kind `item` one slot contributes.
pub open spec fn stack_count(slot: ItemStack, item: u32) -> int {
    match slot {
        ItemStack::Empty => 0,
        ItemStack::Present { kind, count, .. } => if kind == item {
            count as int
        } else {
            0
        },
    }
}

/// Total number of items of kind `item` over a row of slots.
pub open spec fn count_of(slots: Seq<ItemStack>, item: u32) -> int
    decreases slots.len(),
{
    if slots.len() == 0 {
        0
    } else {
        stack_count(slots[0], item) + count_of(slots.drop_first(), item)
    }
}

/// Sums the counts of the stacks of kind `item` over the given slots.
///
/// The total is required to fit the slot count type; slot counts are small
/// in practice, so this only excludes degenerate inputs.
pub fn num_items_in_slots(slots: &Vec<ItemStack>, item: u32) -> (n: i32)
    requires
        i32::MIN <= count_of(slots@, item) <= i32::MAX,
    ensures
        n == count_of(slots@, item),
{
    let mut acc: i128 = 0;
    let mut i: usize = 0;
    proof {
        assert(slots@.skip(0) =~= slots@);
    }
    while i < slots.len()
        invariant
            i <= slots@.len(),
            acc + count_of(slots@.skip(i as int), item) == count_of(slots@, item),
            -0x8000_0000 * (i as int) <= acc <= 0x8000_0000 * (i as int),
        decreases slots@.len() - i,
    {
        proof {
            assert(slots@.skip(i as int)[0] == slots@[i as int]);
            assert(slots@.skip(i as int).drop_first() =~= slots@.skip(i as int + 1));
        }
        let c: i32 = match slots[i] {
            ItemStack::Empty => 0,
            ItemStack::Present { kind, count, .. } => if kind == item {
                count
            } else {
                0
            },
        };
        acc = acc + c as i128;
        i = i + 1;
    }
    proof {
        assert(slots@.skip(i as int) =~= Seq::<ItemStack>::empty());
    }
    acc as i32
}

} // verus!
