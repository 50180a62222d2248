use lickbot::goal::{RayHit, RayQuery};
use lickbot::pos::BlockPos;
use lickbot::reach::{can_mine_block, resolve_ray_hit, BlockSample, MiningError, ACTUAL_PICK_RANGE};

fn p(x: i32, y: i32, z: i32) -> BlockPos {
    BlockPos::new(x, y, z)
}

fn solid() -> BlockSample {
    BlockSample { is_air: false, indestructible: false }
}

#[test]
fn air_block_fails_first() {
    let r = can_mine_block(p(0, 0, 0), p(0, 0, 1), BlockSample { is_air: true, indestructible: false });
    assert_eq!(r, Err(MiningError::BlockIsAir));
}

#[test]
fn indestructible_block_fails_before_distance() {
    // Even a block far away reports unbreakability first.
    let r = can_mine_block(
        p(100, 0, 0),
        p(0, 0, 0),
        BlockSample { is_air: false, indestructible: true },
    );
    assert_eq!(r, Err(MiningError::BlockIsNotBreakable));
}

#[test]
fn distant_block_is_not_reachable() {
    // Squared distance 49 > 36, the squared coarse pick range.
    let r = can_mine_block(p(7, 0, 0), p(0, 0, 0), solid());
    assert_eq!(r, Err(MiningError::BlockIsNotReachable));
}

#[test]
fn close_block_asks_for_a_ray_cast() {
    let target = p(3, 1, 0);
    let eye = p(0, 1, 0);
    let r = can_mine_block(target, eye, solid());
    assert_eq!(r, Ok(RayQuery { stand: eye, target, range: ACTUAL_PICK_RANGE }));
}

#[test]
fn entity_in_the_way_blocks_the_target() {
    assert_eq!(resolve_ray_hit(p(1, 1, 1), RayHit::Entity), Err(MiningError::EntityBlocking));
}

#[test]
fn hitting_another_block_is_not_reachable() {
    assert_eq!(
        resolve_ray_hit(p(1, 1, 1), RayHit::Block(p(1, 1, 0))),
        Err(MiningError::BlockIsNotReachable)
    );
}

#[test]
fn hitting_the_target_succeeds() {
    assert_eq!(resolve_ray_hit(p(1, 1, 1), RayHit::Block(p(1, 1, 1))), Ok(()));
}
