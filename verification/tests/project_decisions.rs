use nerdnuggets::dto::project_dto::ProjectStatusCount;
use nerdnuggets::error::{ApiError, DbError};
use nerdnuggets::models::Milestone;
use nerdnuggets::project_flow::{AdminDecision, AdminFollowUp, DaoVoteBook};
use nerdnuggets::service::ProjectService;
use nerdnuggets::types::{FeedbackStatus, ProjectStatus};

fn db_message(e: ApiError) -> String {
    match e {
        ApiError::DbError(DbError::Str(m)) => m,
        other => panic!("unexpected error {other:?}"),
    }
}

fn milestone(id: u128, days: i32, funding: i32) -> Milestone {
    Milestone {
        id,
        project_id: 1,
        status: 0,
        number: 1,
        title: "m".to_string(),
        description: "d".to_string(),
        deliverables: None,
        challenges: None,
        next_steps: None,
        file_urls: vec![],
        proof_status: 0,
        funding_amount: funding,
        days_after_start: days,
        days_of_prediction: 0,
        created_at: 0,
        updated_at: 0,
    }
}

#[test]
fn editor_verdicts_move_the_project() {
    assert_eq!(ProjectService::editor_decision_status(FeedbackStatus::Accepted).unwrap(), ProjectStatus::ApprovedEditor);
    assert_eq!(ProjectService::editor_decision_status(FeedbackStatus::RevisionRequired).unwrap(), ProjectStatus::RevisionEditor);
    assert_eq!(ProjectService::editor_decision_status(FeedbackStatus::Rejected).unwrap(), ProjectStatus::Rejected);
    assert_eq!(db_message(ProjectService::editor_decision_status(FeedbackStatus::Pending).unwrap_err()), "Status should not be Pending");
}

#[test]
fn admin_verdicts_open_a_dao_or_start_funding() {
    assert_eq!(
        ProjectService::admin_decision(FeedbackStatus::Accepted, true).unwrap(),
        AdminDecision { status: ProjectStatus::DaoVoting, opens_dao: true, starts_funding: false }
    );
    assert_eq!(
        ProjectService::admin_decision(FeedbackStatus::Accepted, false).unwrap(),
        AdminDecision { status: ProjectStatus::Funding, opens_dao: false, starts_funding: true }
    );
    assert_eq!(ProjectService::admin_decision(FeedbackStatus::RevisionRequired, true).unwrap().status, ProjectStatus::RevisionAdmin);
    assert_eq!(ProjectService::admin_decision(FeedbackStatus::Rejected, false).unwrap().status, ProjectStatus::Rejected);
    assert_eq!(db_message(ProjectService::admin_decision(FeedbackStatus::Pending, true).unwrap_err()), "Status should not be Pending");
    assert_eq!(ProjectService::admin_follow_up(7), AdminFollowUp::OpenDao);
    assert_eq!(ProjectService::admin_follow_up(8), AdminFollowUp::StartFunding);
    assert_eq!(ProjectService::admin_follow_up(5), AdminFollowUp::Nothing);
}

#[test]
fn the_researcher_needs_a_wallet() {
    assert_eq!(ProjectService::researcher_wallet(&Some("0xabc".to_string())).unwrap(), "0xabc");
    for w in [Some(String::new()), None] {
        assert_eq!(db_message(ProjectService::researcher_wallet(&w).unwrap_err()), "Can't find the wallet address of the researcher");
    }
}

#[test]
fn milestones_go_on_chain_as_days_and_amounts() {
    let ms = vec![milestone(1, 30, 1000), milestone(2, -1, 5)];
    assert_eq!(ProjectService::milestone_chain_data(&ms), vec![(30, 1000), (u64::MAX, 5)]);
    assert_eq!(ProjectService::first_milestone(&ms), Some(1));
    assert_eq!(ProjectService::first_milestone(&vec![]), None);
}

#[test]
fn prediction_windows_follow_each_other() {
    let ms = vec![milestone(1, 30, 0), milestone(2, 60, 0), milestone(3, 90, 0)];
    assert_eq!(ProjectService::prediction_windows(1000, &ms), vec![(1000, 1030), (1031, 1060), (1061, 1090)]);
    assert!(ProjectService::prediction_windows(1000, &vec![]).is_empty());
}

#[test]
fn a_finished_vote_funds_or_rejects_the_project() {
    assert_eq!(ProjectService::dao_vote_result(7, true), Some(ProjectStatus::Funding));
    assert_eq!(ProjectService::dao_vote_result(7, false), Some(ProjectStatus::Rejected));
    assert_eq!(ProjectService::dao_vote_result(8, true), None);
    assert_eq!(ProjectService::dao_closing(0, true), Some(1));
    assert_eq!(ProjectService::dao_closing(0, false), Some(2));
    assert_eq!(ProjectService::dao_closing(1, false), None);
}

#[test]
fn each_user_votes_once() {
    assert_eq!(ProjectService::dao_vote_code(true, false).unwrap(), 1);
    assert_eq!(ProjectService::dao_vote_code(false, false).unwrap(), 2);
    assert_eq!(db_message(ProjectService::dao_vote_code(true, true).unwrap_err()), "You have already voted for this dao");
}

#[test]
fn donations_go_to_existing_milestones() {
    assert_eq!(ProjectService::donation_milestone(0, 3).unwrap(), 1);
    assert_eq!(ProjectService::donation_milestone(2, 3).unwrap(), 3);
    assert_eq!(db_message(ProjectService::donation_milestone(3, 3).unwrap_err()), "Milestone not found");
    assert_eq!(db_message(ProjectService::donation_milestone(-5, 3).unwrap_err()), "Milestone not found");
    assert_eq!(ProjectService::donation_milestone(-1, 0).unwrap(), 0);
}

#[test]
fn editors_are_assigned_to_projects_waiting_for_review() {
    let editor = vec!["Researcher".to_string(), "Editor".to_string()];
    assert!(ProjectService::check_editor_assignment(&editor, 1).is_ok());
    assert_eq!(db_message(ProjectService::check_editor_assignment(&editor, 2).unwrap_err()), "Project's status is not PendingReview");
    assert_eq!(
        db_message(ProjectService::check_editor_assignment(&vec!["editor".to_string()], 1).unwrap_err()),
        "This user has not an editor role"
    );
}

#[test]
fn only_owners_delete_projects() {
    assert!(ProjectService::check_owner(4, 4).is_ok());
    assert_eq!(db_message(ProjectService::check_owner(4, 5).unwrap_err()), "No permission");
}

#[test]
fn drafts_and_submitted_proofs() {
    assert_eq!(ProjectService::milestone_proof_status(true), 0);
    assert_eq!(ProjectService::milestone_proof_status(false), 1);
}

#[test]
fn status_filters_are_normalized_once_and_for_all() {
    assert_eq!(ProjectService::normalize_status_filter(Some(4)), Some(4));
    assert_eq!(ProjectService::normalize_status_filter(Some(99)), Some(10));
    assert_eq!(ProjectService::normalize_status_filter(Some(-3)), Some(10));
    assert_eq!(ProjectService::normalize_status_filter(None), None);
    let once = ProjectService::normalize_status_filter(Some(99));
    assert_eq!(ProjectService::normalize_status_filter(once), once);
}

#[test]
fn project_counts_use_funding_and_completed() {
    let all = vec![
        ProjectStatusCount { status: 1, count: 4 },
        ProjectStatusCount { status: 8, count: 3 },
        ProjectStatusCount { status: 9, count: 2 },
        ProjectStatusCount { status: 8, count: 100 },
    ];
    let mine = vec![ProjectStatusCount { status: 1, count: 1 }, ProjectStatusCount { status: 9, count: 2 }];
    let r = ProjectService::project_counts(&all, Some(&mine));
    assert_eq!((r.all, r.funding, r.funded, r.my_project, r.featured, r.trending), (5, 3, 2, 3, 0, 0));
    let r = ProjectService::project_counts(&vec![], None);
    assert_eq!((r.all, r.funding, r.funded, r.my_project), (0, 0, 0, 0));
}

#[test]
fn a_wallet_votes_once_on_a_dao() {
    let mut book = DaoVoteBook::new();
    assert_eq!(book.submit_vote(7, 100, true, 5).unwrap(), true);
    assert!(book.has_voted(7, 100));
    assert!(!book.has_voted(8, 100));
    assert!(!book.has_voted(7, 101));
    for (support, weight) in [(true, 5), (false, 9)] {
        match book.submit_vote(7, 100, support, weight) {
            Err(ApiError::DbError(DbError::Str(m))) => assert_eq!(m, "You have already voted for this dao"),
            other => panic!("unexpected {other:?}"),
        }
    }
    assert_eq!(book.submit_vote(7, 101, false, 3).unwrap(), true);
    assert_eq!(book.submit_vote(8, 100, false, 3).unwrap(), true);
}
