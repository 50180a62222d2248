//! Line-of-sight reachability and block-viability check.
//!
//! Decides whether the block at a target position can be mined from where
//! the agent stands. The checks run in a fixed order: block present, block
//! breakable, coarse distance prune, then — only if all of those pass — a
//! ray cast, which the caller performs and whose result is judged by
//! [`resolve_ray_hit`]. Every failure names the target-local reason; all of
//! them are recoverable for the caller, which simply moves on to another
//! target.

use vstd::prelude::*;

use crate::goal::{ray_confirms_spec, RayHit, RayQuery};
use crate::pos::{dist_sq, BlockPos};

verus! {

/// Maximum coarse pick range in blocks: targets farther than this from the
/// eye are not even ray cast.
pub const MAX_PICK_RANGE: u32 = 6;

/// Range of the actual interaction ray cast, in blocks. Shorter than the
/// coarse range: it models real interaction reach.
pub const ACTUAL_PICK_RANGE: u32 = 3;

/// What the per-target viability logic reads of a sampled block state.
#[derive(Clone, Copy, Debug, PartialEq, Eq, Structural)]
pub struct BlockSample {
    /// The position holds no block (or is unloaded, which reads as air).
    pub is_air: bool,
    /// The block's resistance marks it as indestructible.
    pub indestructible: bool,
}

/// Why one candidate target cannot be mined right now. All variants are
/// per-target and non-fatal: the escalation loop swallows them and tries the
/// next target.
#[derive(Clone, Copy, Debug, PartialEq, Eq, Structural)]
pub enum MiningError {
    BlockIsAir,
    BlockIsNotBreakable,
    BlockIsNotReachable,
    EntityBlocking,
}

/// The part of the reachability verdict that is known before the ray cast:
/// either a failure, or the single ray cast still needed.
pub open spec fn can_mine_precheck_spec(pos: BlockPos, eye: BlockPos, block: BlockSample) -> Result<
    RayQuery,
    MiningError,
> {
    if block.is_air {
        Err(MiningError::BlockIsAir)
    } else if block.indestructible {
        Err(MiningError::BlockIsNotBreakable)
    } else if dist_sq(pos, eye) > MAX_PICK_RANGE * MAX_PICK_RANGE {
        Err(MiningError::BlockIsNotReachable)
    } else {
        Ok(RayQuery { stand: eye, target: pos, range: ACTUAL_PICK_RANGE })
    }
}

/// The verdict once the requested ray has been cast.
pub open spec fn ray_verdict_spec(pos: BlockPos, hit: RayHit) -> Result<(), MiningError> {
    if hit is Entity {
        Err(MiningError::EntityBlocking)
    } else if !ray_confirms_spec(pos, hit) {
        Err(MiningError::BlockIsNotReachable)
    } else {
        Ok(())
    }
}

/// The whole reachability check, given every sampled input it may consult:
/// the precheck chain, then the ray verdict. The executable split in
/// [`can_mine_block`] and [`resolve_ray_hit`] equals this function whenever
/// the ray cast answered the query the precheck asked for.
pub open spec fn can_mine_spec(
    pos: BlockPos,
    eye: BlockPos,
    block: BlockSample,
    hit: RayHit,
) -> Result<(), MiningError> {
    match can_mine_precheck_spec(pos, eye, block) {
        Err(e) => Err(e),
        Ok(_) => ray_verdict_spec(pos, hit),
    }
}

/// Checks whether the block at `pos` could be mined by an agent whose eye is
/// at the (rounded) position `eye`, as far as that can be known without a
/// ray cast.
///
/// On success the caller must still perform the returned ray cast and judge
/// it with [`resolve_ray_hit`]; the expensive cast is only requested once
/// the cheap checks have passed.
pub fn can_mine_block(pos: BlockPos, eye: BlockPos, block: BlockSample) -> (r: Result<
    RayQuery,
    MiningError,
>)
    ensures
        r == can_mine_precheck_spec(pos, eye, block),
{
    if block.is_air {
        return Err(MiningError::BlockIsAir);
    }
    if block.indestructible {
        return Err(MiningError::BlockIsNotBreakable);
    }
    let d = pos.distance_squared_to(&eye);
    if d > (MAX_PICK_RANGE * MAX_PICK_RANGE) as i128 {
        return Err(MiningError::BlockIsNotReachable);
    }
    Ok(RayQuery { stand: eye, target: pos, range: ACTUAL_PICK_RANGE })
}

/// Judges the ray cast requested by [`can_mine_block`]: an entity in the way
/// blocks the target, a different first block means the target is out of
/// sight, and only a hit on the target itself succeeds.
pub fn resolve_ray_hit(pos: BlockPos, hit: RayHit) -> (r: Result<(), MiningError>)
    ensures
        r == ray_verdict_spec(pos, hit),
{
    match hit {
        RayHit::Entity => Err(MiningError::EntityBlocking),
        RayHit::Block(p) => {
            if p == pos {
                Ok(())
            } else {
                Err(MiningError::BlockIsNotReachable)
            }
        },
    }
}

/// Composing the two executable halves gives exactly the full check: when
/// the precheck fails its error is the verdict, and when it asks for a ray
/// the judged hit decides.
pub proof fn lemma_can_mine_split(pos: BlockPos, eye: BlockPos, block: BlockSample, hit: RayHit)
    ensures
        can_mine_precheck_spec(pos, eye, block) matches Err(e) ==> can_mine_spec(
            pos,
            eye,
            block,
            hit,
        ) == Err::<(), MiningError>(e),
        can_mine_precheck_spec(pos, eye, block) is Ok ==> can_mine_spec(pos, eye, block, hit)
            == ray_verdict_spec(pos, hit),
{
}

} // verus!
