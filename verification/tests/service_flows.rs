use nerdnuggets::admin_flow::{AdminAction, AdminEvent, AdminFlow};
use nerdnuggets::donation_flow::{DonationAction, DonationEvent, DonationFlow, FoundProject};
use nerdnuggets::error::{ApiError, DbError};
use nerdnuggets::models::Milestone;
use nerdnuggets::notices::{fan_out_step, FanOutAction, FanOutEvent};
use nerdnuggets::service::ProjectService;
use nerdnuggets::types::{FeedbackStatus, ProjectStatus};

fn message(action: &AdminAction) -> String {
    match action {
        AdminAction::Fail { error: ApiError::DbError(DbError::Str(m)) } => m.clone(),
        other => panic!("not a failure: {other:?}"),
    }
}

fn milestone(id: u128, days: i32, funding: i32) -> Milestone {
    Milestone {
        id,
        project_id: 1,
        status: 0,
        number: 1,
        title: String::new(),
        description: String::new(),
        deliverables: None,
        challenges: None,
        next_steps: None,
        file_urls: Vec::new(),
        proof_status: 0,
        funding_amount: funding,
        days_after_start: days,
        days_of_prediction: 0,
        created_at: 0,
        updated_at: 0,
    }
}

#[test]
fn an_accepted_project_goes_to_its_dao_in_order() {
    let (s, a) = ProjectService::admin_flow_step(AdminFlow::Start { verdict: FeedbackStatus::Accepted, to_dao: true }, AdminEvent::Begin);
    match a {
        AdminAction::StoreDecision { decision } => assert_eq!(decision.status, ProjectStatus::DaoVoting),
        other => panic!("{other:?}"),
    }
    let (s, a) = ProjectService::admin_flow_step(s, AdminEvent::Stored { status: Some(ProjectStatus::DaoVoting.to_i16()) });
    assert!(matches!(a, AdminAction::FindResearcher));
    let (s, a) = ProjectService::admin_flow_step(s, AdminEvent::Researcher { wallet: Some(Some("0xabc".to_string())) });
    assert!(matches!(a, AdminAction::FetchMilestones));
    let (s, a) = ProjectService::admin_flow_step(s, AdminEvent::Milestones { milestones: vec![milestone(1, 30, 500), milestone(2, 60, 700)] });
    match &a {
        AdminAction::CreateChainProject { wallet, milestones } => {
            assert_eq!(wallet, "0xabc");
            assert_eq!(milestones, &vec![(30, 500), (60, 700)]);
        },
        other => panic!("{other:?}"),
    }
    let (s, a) = ProjectService::admin_flow_step(s, AdminEvent::ChainProject { error: None });
    assert!(matches!(a, AdminAction::CreateDao));
    let (s2, a) = ProjectService::admin_flow_step(s.clone(), AdminEvent::DaoCreated { created: false });
    assert_eq!(message(&a), "Create dao failed");
    assert!(matches!(s2, AdminFlow::Done));
    let (_, a) = ProjectService::admin_flow_step(s, AdminEvent::DaoCreated { created: true });
    assert!(matches!(a, AdminAction::Succeed));
}

#[test]
fn admin_flow_failures_end_it() {
    let (_, a) = ProjectService::admin_flow_step(AdminFlow::Start { verdict: FeedbackStatus::Pending, to_dao: false }, AdminEvent::Begin);
    assert_eq!(message(&a), "Status should not be Pending");
    let (_, a) = ProjectService::admin_flow_step(AdminFlow::AwaitStored, AdminEvent::Stored { status: None });
    assert_eq!(message(&a), "Admin decision failed");
    let (_, a) = ProjectService::admin_flow_step(AdminFlow::AwaitResearcher, AdminEvent::Researcher { wallet: None });
    assert_eq!(message(&a), "Researcher not found");
    let (_, a) = ProjectService::admin_flow_step(AdminFlow::AwaitResearcher, AdminEvent::Researcher { wallet: Some(Some(String::new())) });
    assert_eq!(message(&a), "Can't find the wallet address of the researcher");
    let (_, a) = ProjectService::admin_flow_step(AdminFlow::AwaitChainProject, AdminEvent::ChainProject { error: Some("rpc down".to_string()) });
    assert_eq!(message(&a), "rpc down");
    let (_, a) = ProjectService::admin_flow_step(AdminFlow::AwaitFirstMilestone, AdminEvent::FirstMilestoneStarted { started: false });
    assert_eq!(message(&a), "Update milestone.0 status to 'In Progress' failed");
    let (s, a) = ProjectService::admin_flow_step(AdminFlow::AwaitDao, AdminEvent::Begin);
    assert!(matches!(a, AdminAction::Ignore));
    assert!(matches!(s, AdminFlow::AwaitDao));
}

#[test]
fn funding_starts_the_first_milestone_then_the_predictions() {
    let (s, a) = ProjectService::admin_flow_step(AdminFlow::Start { verdict: FeedbackStatus::Accepted, to_dao: false }, AdminEvent::Begin);
    assert!(matches!(a, AdminAction::StoreDecision { .. }));
    let (s, a) = ProjectService::admin_flow_step(s, AdminEvent::Stored { status: Some(ProjectStatus::Funding.to_i16()) });
    assert!(matches!(a, AdminAction::FetchMilestones));
    let (s, a) = ProjectService::admin_flow_step(s.clone(), AdminEvent::Milestones { milestones: vec![milestone(9, 10, 1), milestone(8, 20, 2)] });
    assert!(matches!(a, AdminAction::StartMilestone { id: 9 }));
    let (s, a) = ProjectService::admin_flow_step(s, AdminEvent::FirstMilestoneStarted { started: true });
    assert!(matches!(a, AdminAction::CreatePredictions));
    let (s, a) = ProjectService::admin_flow_step(s, AdminEvent::PredictionsCreated);
    assert!(matches!(a, AdminAction::Succeed));
    assert!(matches!(s, AdminFlow::Done));
    let (_, a) = ProjectService::admin_flow_step(AdminFlow::AwaitFundingMilestones, AdminEvent::Milestones { milestones: vec![] });
    assert!(matches!(a, AdminAction::Succeed));
    let (_, a) = ProjectService::admin_flow_step(AdminFlow::AwaitStored, AdminEvent::Stored { status: Some(ProjectStatus::Rejected.to_i16()) });
    assert!(matches!(a, AdminAction::Succeed));
}

fn donation_message(action: &DonationAction) -> String {
    match action {
        DonationAction::Fail { error: ApiError::DbError(DbError::Str(m)) } => m.clone(),
        other => panic!("not a failure: {other:?}"),
    }
}

#[test]
fn donations_are_recorded_in_order() {
    let (s, a) = ProjectService::donation_flow_step(DonationFlow::Start { number: 1 }, DonationEvent::Begin);
    assert_eq!(s, DonationFlow::AwaitUser { number: 2 });
    assert!(matches!(a, DonationAction::FindUser));
    let (s, a) = ProjectService::donation_flow_step(s, DonationEvent::User { user: Some(5) });
    assert!(matches!(a, DonationAction::FindProject));
    let (s, a) = ProjectService::donation_flow_step(s, DonationEvent::Project { project: Some(FoundProject { id: 6, proposal_id: 77 }) });
    assert!(matches!(a, DonationAction::FetchMilestones { project: 6 }));
    let (short, a) = ProjectService::donation_flow_step(s, DonationEvent::Milestones { count: 1 });
    assert_eq!(donation_message(&a), "Milestone not found");
    assert_eq!(short, DonationFlow::Done);
    let (s, a) = ProjectService::donation_flow_step(s, DonationEvent::Milestones { count: 2 });
    assert!(matches!(a, DonationAction::RecordDonation { user: 5, project: 6, proposal_id: 77, number: 2 }));
    let (unrecorded, a) = ProjectService::donation_flow_step(s, DonationEvent::Donated { recorded: false });
    assert!(matches!(a, DonationAction::Succeed));
    assert_eq!(unrecorded, DonationFlow::Done);
    let (s, a) = ProjectService::donation_flow_step(s, DonationEvent::Donated { recorded: true });
    assert!(matches!(a, DonationAction::AddToProject { project: 6 }));
    let (s, a) = ProjectService::donation_flow_step(s, DonationEvent::ProjectTotalUpdated);
    assert!(matches!(a, DonationAction::Succeed));
    assert_eq!(s, DonationFlow::Done);
    let (_, a) = ProjectService::donation_flow_step(DonationFlow::AwaitUser { number: 1 }, DonationEvent::User { user: None });
    assert_eq!(donation_message(&a), "User not found");
    let (_, a) = ProjectService::donation_flow_step(DonationFlow::AwaitProject { number: 1, user: 5 }, DonationEvent::Project { project: None });
    assert_eq!(donation_message(&a), "Project not found");
    let (_, a) = ProjectService::donation_flow_step(
        DonationFlow::AwaitMilestones { number: -3, user: 5, project: 6, proposal_id: 77 },
        DonationEvent::Milestones { count: 10 },
    );
    assert_eq!(donation_message(&a), "Milestone not found");
}

#[test]
fn notifications_stop_at_the_first_failed_store() {
    assert!(matches!(fan_out_step(0, FanOutEvent::Begin), FanOutAction::Succeed));
    assert!(matches!(fan_out_step(3, FanOutEvent::Begin), FanOutAction::Store { index: 0 }));
    assert!(matches!(fan_out_step(3, FanOutEvent::Stored { index: 0, error: None }), FanOutAction::Store { index: 1 }));
    assert!(matches!(fan_out_step(3, FanOutEvent::Stored { index: 2, error: None }), FanOutAction::Succeed));
    let failed = fan_out_step(3, FanOutEvent::Stored { index: 1, error: Some(ApiError::DbError(DbError::Str("x".to_string()))) });
    assert!(matches!(failed, FanOutAction::Fail { error: ApiError::DbError(DbError::Str(ref m)) } if m == "x"));
}
