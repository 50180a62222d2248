use lickbot::escalate::{
    stage_goals, ActionEscalator, CantMineAnyError, EscAction, EscEvent, Stage,
    EXACT_APPROACH_DISTANCE,
};
use lickbot::goal::{Goal, RayHit};
use lickbot::pos::BlockPos;
use lickbot::reach::BlockSample;

fn p(x: i32, y: i32, z: i32) -> BlockPos {
    BlockPos::new(x, y, z)
}

fn solid() -> BlockSample {
    BlockSample { is_air: false, indestructible: false }
}

fn air() -> BlockSample {
    BlockSample { is_air: true, indestructible: false }
}

const FAR: BlockPos = BlockPos { x: 1000, y: 64, z: 1000 };
const NEAR: BlockPos = BlockPos { x: 1, y: 64, z: 0 };

/// A sample of a solid block seen from too far away to pass the coarse pick
/// range: reachability fails without a ray cast.
fn sampled_far() -> EscEvent {
    EscEvent::BlockSampled { block: solid(), agent: FAR, eye: FAR }
}

/// A sample of a solid block seen from next to it.
fn sampled_near() -> EscEvent {
    EscEvent::BlockSampled { block: solid(), agent: NEAR, eye: NEAR }
}

#[test]
fn escalation_requests_stages_in_order_and_succeeds_at_stage_three() {
    let target = p(0, 64, 0);
    let mut esc = ActionEscalator::new(vec![target]);
    let mut requested: Vec<Stage> = Vec::new();

    // Stage one: the target is out of reach where the agent ended up.
    match esc.step(EscEvent::Start) {
        EscAction::RequestPath { stage } => requested.push(stage),
        a => panic!("expected a path request, got {a:?}"),
    }
    assert!(matches!(esc.step(EscEvent::PathArrived), EscAction::SampleBlock { .. }));
    match esc.step(sampled_far()) {
        EscAction::RequestPath { stage } => requested.push(stage),
        a => panic!("expected escalation, got {a:?}"),
    }

    // Stage two: still out of reach.
    assert!(matches!(esc.step(EscEvent::PathArrived), EscAction::SampleBlock { .. }));
    match esc.step(sampled_far()) {
        EscAction::RequestPath { stage } => requested.push(stage),
        a => panic!("expected escalation, got {a:?}"),
    }

    // Stage three: reachable now; ray confirms; mine.
    assert!(matches!(esc.step(EscEvent::PathArrived), EscAction::SampleBlock { .. }));
    assert!(matches!(esc.step(sampled_near()), EscAction::CastRay { .. }));
    assert_eq!(
        esc.step(EscEvent::RayReturned { hit: RayHit::Block(target) }),
        EscAction::Mine { pos: target }
    );
    assert_eq!(esc.step(EscEvent::MineFinished), EscAction::Report { success: true });

    assert_eq!(requested, vec![Stage::ExactApproach, Stage::AdjacentStand, Stage::OccupyStand]);
    assert_eq!(esc.result(), Some(Ok(())));
}

#[test]
fn skips_air_target_mined_by_someone_else_and_succeeds_on_the_next() {
    let a = p(5, 5, 5);
    let b = p(6, 5, 5);
    let mut esc = ActionEscalator::new(vec![a, b]);

    assert!(matches!(esc.step(EscEvent::Start), EscAction::RequestPath { .. }));
    assert_eq!(esc.step(EscEvent::PathArrived), EscAction::SampleBlock { pos: a });

    // The first target is already air and the agent is far away: classified
    // as mined by someone else, skipped, and the next target is tried.
    let skipped = esc.step(EscEvent::BlockSampled { block: air(), agent: FAR, eye: FAR });
    assert_eq!(skipped, EscAction::SampleBlock { pos: b });

    // The second target is intact and reachable from where the agent stands
    // now.
    let beside_b = p(7, 5, 5);
    let sampled = EscEvent::BlockSampled { block: solid(), agent: beside_b, eye: beside_b };
    assert!(matches!(esc.step(sampled), EscAction::CastRay { .. }));
    assert_eq!(
        esc.step(EscEvent::RayReturned { hit: RayHit::Block(b) }),
        EscAction::Mine { pos: b }
    );
    assert_eq!(esc.step(EscEvent::MineFinished), EscAction::Report { success: true });
    assert_eq!(esc.result(), Some(Ok(())));
}

#[test]
fn air_target_near_the_agent_counts_as_mined_by_self() {
    let a = p(5, 5, 5);
    let mut esc = ActionEscalator::new(vec![a]);
    assert!(matches!(esc.step(EscEvent::Start), EscAction::RequestPath { .. }));
    assert!(matches!(esc.step(EscEvent::PathArrived), EscAction::SampleBlock { .. }));
    // Squared distance 1 < 16: attributed to the agent itself.
    let agent = p(6, 5, 5);
    let done = esc.step(EscEvent::BlockSampled { block: air(), agent, eye: agent });
    assert_eq!(done, EscAction::Report { success: true });
    assert_eq!(esc.result(), Some(Ok(())));
}

#[test]
fn exhausting_all_three_stages_reports_cant_mine_any() {
    let targets = vec![p(0, 64, 0), p(0, 64, 2)];
    let mut esc = ActionEscalator::new(targets);
    let mut stage_requests = 0;

    let mut action = esc.step(EscEvent::Start);
    loop {
        match action {
            EscAction::RequestPath { .. } => {
                stage_requests += 1;
                action = esc.step(EscEvent::PathArrived);
            }
            EscAction::SampleBlock { .. } => {
                // Every target fails reachability at every stage.
                action = esc.step(sampled_far());
            }
            EscAction::Report { success } => {
                assert!(!success);
                break;
            }
            a => panic!("unexpected action {a:?}"),
        }
    }

    assert_eq!(stage_requests, 3);
    assert_eq!(esc.result(), Some(Err(CantMineAnyError)));
}

#[test]
fn stage_goals_use_the_stage_variant_per_target_in_order() {
    let targets = vec![p(1, 2, 3), p(4, 5, 6)];
    assert_eq!(
        stage_goals(Stage::ExactApproach, &targets),
        vec![
            Goal::ExactApproach { target: p(1, 2, 3), distance: EXACT_APPROACH_DISTANCE },
            Goal::ExactApproach { target: p(4, 5, 6), distance: EXACT_APPROACH_DISTANCE },
        ]
    );
    assert_eq!(
        stage_goals(Stage::OccupyStand, &targets),
        vec![
            Goal::OccupyStand { target: p(1, 2, 3) },
            Goal::OccupyStand { target: p(4, 5, 6) },
        ]
    );
}

#[test]
fn reachable_target_succeeds_in_the_first_stage() {
    let target = p(0, 64, 0);
    let mut esc = ActionEscalator::new(vec![target]);
    assert_eq!(
        esc.step(EscEvent::Start),
        EscAction::RequestPath { stage: Stage::ExactApproach }
    );
    assert_eq!(esc.step(EscEvent::PathArrived), EscAction::SampleBlock { pos: target });
    assert!(matches!(esc.step(sampled_near()), EscAction::CastRay { .. }));
    assert_eq!(
        esc.step(EscEvent::RayReturned { hit: RayHit::Block(target) }),
        EscAction::Mine { pos: target }
    );
    assert_eq!(esc.step(EscEvent::MineFinished), EscAction::Report { success: true });
    assert_eq!(esc.result(), Some(Ok(())));
}

#[test]
fn entity_blocking_is_non_fatal_for_the_target() {
    let a = p(0, 64, 0);
    let b = p(2, 64, 0);
    let mut esc = ActionEscalator::new(vec![a, b]);
    assert!(matches!(esc.step(EscEvent::Start), EscAction::RequestPath { .. }));
    assert_eq!(esc.step(EscEvent::PathArrived), EscAction::SampleBlock { pos: a });
    assert!(matches!(esc.step(sampled_near()), EscAction::CastRay { .. }));
    // An entity blocks the first target: move on to the second.
    assert_eq!(
        esc.step(EscEvent::RayReturned { hit: RayHit::Entity }),
        EscAction::SampleBlock { pos: b }
    );
}
