//! Goal-directed interaction retry engine.
//!
//! The library drives an agent toward a world-interaction objective (reach a
//! block, break one of several candidate blocks, pick up a moving dropped
//! item) inside an environment that changes concurrently. It is organised as
//! pure decision logic: spatial goal predicates, a line-of-sight reachability
//! check, a three-stage escalation state machine, and a tick-polling item
//! retrieval tracker. All interaction with the world (path planning, block
//! sampling, ray casting, inventory access) happens outside the library; the
//! caller feeds sampled world data in as events and performs the actions the
//! state machines hand back.

pub mod escalate;
pub mod goal;
pub mod inventory;
pub mod pos;
pub mod reach;
pub mod retrieve;
pub mod select;
pub mod targets;
pub mod weapon;
