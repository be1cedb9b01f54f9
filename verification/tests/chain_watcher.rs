use nerdnuggets::chain_events::{
    try_next_from_block, approval_proposal, block_to_store, chain_milestones, dao_event_action, event_block_range,
    funding_event_action, next_from_block, ChainAction, ChainMilestone, DaoEvent, FundingEvent, JobAction, JobEvent, JobGate,
};
use nerdnuggets::service::PredictionPlacementService;

#[test]
fn blocks_are_read_after_the_last_stored() {
    assert_eq!(next_from_block(Some("41")), Some(42));
    assert_eq!(next_from_block(Some("+0")), Some(1));
    assert_eq!(next_from_block(None), None);
    assert_eq!(event_block_range(Some(5), 90), (5, 90));
    assert_eq!(event_block_range(None, 25_000), (15_000, 25_000));
}

#[test]
fn stored_blocks_read_back() {
    for n in [0u64, 7, 10, 123_456_789, u64::MAX] {
        let text = block_to_store(Some(n)).unwrap();
        assert_eq!(text, n.to_string());
        if n < u64::MAX {
            assert_eq!(next_from_block(Some(&text)), Some(n + 1));
        }
    }
    assert_eq!(block_to_store(None), None);
}

#[test]
fn dao_events_become_votes_and_results() {
    match dao_event_action(DaoEvent::Voted { project_id: 20251234, voter: "0xv".to_string(), support: true, weight: 5 }) {
        Some(ChainAction::SubmitDaoVote { proposal_id, wallet, support, weight }) => {
            assert_eq!((proposal_id, wallet.as_str(), support, weight), (20251234, "0xv", true, 5));
        }
        other => panic!("{other:?}"),
    }
    match dao_event_action(DaoEvent::ProjectApproved { project_id: u64::MAX, proceeded_to_funding: false }) {
        Some(ChainAction::FinishDao { proposal_id, passed }) => assert_eq!((proposal_id, passed), (-1, false)),
        other => panic!("{other:?}"),
    }
    assert!(dao_event_action(DaoEvent::Other).is_none());
}

#[test]
fn funding_events_become_donations_and_placements() {
    match funding_event_action(
        FundingEvent::Donated { project_id: 7, milestone_index: 70_000, donor: "0xd".to_string(), amount: 9 },
        None,
    ) {
        Some(ChainAction::DonateMilestone { proposal_id, number, wallet, amount }) => {
            assert_eq!((proposal_id, number, wallet.as_str(), amount), (7, 70_000u32 as i16, "0xd", 9));
        }
        other => panic!("{other:?}"),
    }
    match funding_event_action(
        FundingEvent::PredictionPlaced { user: "0xu".to_string(), project_id: 7, milestone_index: 2, predicts_success: true, nerd_amount: 3 },
        Some(555),
    ) {
        Some(ChainAction::PlacePrediction { wallet, proposal_id, milestone_index, predicts_success, nerd_amount, block_number }) => {
            assert_eq!((wallet.as_str(), proposal_id, milestone_index, predicts_success, nerd_amount, block_number), ("0xu", 7, 2, true, 3, 555));
        }
        other => panic!("{other:?}"),
    }
    match funding_event_action(
        FundingEvent::PredictionPlaced { user: "0xu".to_string(), project_id: 7, milestone_index: 2, predicts_success: false, nerd_amount: 3 },
        None,
    ) {
        Some(ChainAction::PlacePrediction { block_number, .. }) => assert_eq!(block_number, 0),
        other => panic!("{other:?}"),
    }
    assert!(funding_event_action(FundingEvent::Other, Some(1)).is_none());
}

#[test]
fn approvals_and_milestones_on_chain() {
    assert_eq!(approval_proposal(20250001), 20250001);
    assert_eq!(approval_proposal(-1), u64::MAX);
    assert_eq!(
        chain_milestones(&vec![(30, 100), (60, 200)]),
        vec![
            ChainMilestone { duration: 30, funding_goal: 100, prediction_deadline: 30 },
            ChainMilestone { duration: 60, funding_goal: 200, prediction_deadline: 60 },
        ]
    );
}

#[test]
fn runs_never_overlap() {
    let mut gate = JobGate::new();
    assert!(!gate.is_busy());
    assert!(gate.try_start());
    assert!(!gate.try_start());
    assert!(gate.is_busy());
    gate.finish();
    assert!(!gate.is_busy());
    assert!(gate.try_start());
}

#[test]
fn placements_are_stored_once_per_milestone() {
    assert_eq!(PredictionPlacementService::placement_milestone(0, false), Some(1));
    assert_eq!(PredictionPlacementService::placement_milestone(4, true), None);
}

#[test]
fn stored_blocks_that_are_no_numbers_are_refused() {
    assert_eq!(try_next_from_block(Some("41")), Some(Some(42)));
    assert_eq!(try_next_from_block(None), Some(None));
    assert_eq!(try_next_from_block(Some("-1")), None);
    assert_eq!(try_next_from_block(Some("12a")), None);
    assert_eq!(try_next_from_block(Some("18446744073709551615")), None);
    assert_eq!(try_next_from_block(Some("18446744073709551616")), None);
}

#[test]
fn successive_runs_read_adjacent_ranges() {
    let mut stored: Option<String> = None;
    let mut last_to: Option<u64> = None;
    for head in [20_000u64, 20_500, 20_501, 31_000] {
        let from = try_next_from_block(stored.as_deref()).unwrap();
        let (start, end) = event_block_range(from, head);
        match last_to {
            Some(t) => assert_eq!(start, t + 1),
            None => assert_eq!(start, head - 10_000),
        }
        assert_eq!(end, head);
        stored = block_to_store(Some(end));
        last_to = Some(end);
    }
    assert_eq!(try_next_from_block(Some("+41")), Some(Some(42)));
    assert_eq!(try_next_from_block(Some("")), None);
    assert_eq!(try_next_from_block(Some("18446744073709551614")), Some(Some(u64::MAX)));
}

#[test]
fn scheduler_steps_skip_overlapping_ticks_and_notify_after_each_run() {
    let mut gate = JobGate::new();
    let trace = [
        (JobEvent::Tick, JobAction::StartRun),
        (JobEvent::Tick, JobAction::SkipTick),
        (JobEvent::ShutdownRequested, JobAction::WaitForRun { max_seconds: 300 }),
        (JobEvent::RunEnded { ok: false }, JobAction::ClearAndNotify),
        (JobEvent::Tick, JobAction::StartRun),
        (JobEvent::RunEnded { ok: true }, JobAction::ClearAndNotify),
        (JobEvent::ShutdownRequested, JobAction::ShutDown),
    ];
    for (event, expected) in trace {
        assert_eq!(gate.step(event), expected);
    }
    assert!(!gate.is_busy());
}
