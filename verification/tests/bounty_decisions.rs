use nerdnuggets::bounty::{BidStatus, BountyReviewType, BountyStatus, BountySubmissionStatus};
use nerdnuggets::bounty_service::BountyReviewDecision;
use nerdnuggets::calendar::CalendarDate;
use nerdnuggets::env::{Env, EnvVars};
use nerdnuggets::error::{ApiError, DbError};
use nerdnuggets::repository::DatabasePool;
use nerdnuggets::service::BountyService;
use std::sync::Arc;

fn db_message(e: ApiError) -> String {
    match e {
        ApiError::DbError(DbError::Str(m)) => m,
        other => panic!("unexpected error {other:?}"),
    }
}

fn service() -> BountyService {
    let env = Env::from_vars(EnvVars {
        port: None,
        jwt_secret: "s".to_string(),
        jwt_ttl_in_minutes: None,
        database_url: "postgres://db".to_string(),
        database_max_connections: None,
        aws_access_key_id: String::new(),
        aws_secret_access_key: String::new(),
        aws_bucket_name: String::new(),
        email_verify_exp_second: None,
        email_verify_limit: None,
        email_region: String::new(),
        frontend_url: String::new(),
        vapid_private_pem: String::new(),
        production: None,
        ai_backend_url: String::new(),
        google_map_api_key: String::new(),
        evm_job_schedule: String::new(),
        dao_contract_address: String::new(),
        rpc_url: String::new(),
        chain_id: None,
        wallet_private_key: String::new(),
    });
    BountyService::new(&Arc::new(DatabasePool::init(&env)))
}

#[test]
fn reviews_apply_to_bounties_awaiting_approval() {
    assert_eq!(
        BountyService::review_decision(BountyReviewType::Approve, BountyStatus::PendingApproval).unwrap(),
        BountyReviewDecision { status: BountyStatus::Open, stamps_approval: true, stamps_rejection: false }
    );
    assert_eq!(
        BountyService::review_decision(BountyReviewType::Reject, BountyStatus::PendingApproval).unwrap(),
        BountyReviewDecision { status: BountyStatus::Rejected, stamps_approval: false, stamps_rejection: true }
    );
    assert_eq!(
        BountyService::review_decision(BountyReviewType::RequestRevision, BountyStatus::PendingApproval).unwrap().status,
        BountyStatus::RequestRevision
    );
    assert_eq!(
        db_message(BountyService::review_decision(BountyReviewType::Approve, BountyStatus::Open).unwrap_err()),
        "The status of this bounty is not PendingApproval"
    );
}

#[test]
fn bids_go_to_open_bounties() {
    assert!(BountyService::check_bid_allowed(BountyStatus::Open).is_ok());
    assert_eq!(
        db_message(BountyService::check_bid_allowed(BountyStatus::InProgress).unwrap_err()),
        "Can't bid on this bounty because its status is not opened"
    );
}

#[test]
fn winners_are_selected_on_open_bounties() {
    assert_eq!(BountyService::winner_selection(3, 3, BountyStatus::Open).unwrap(), BountyStatus::InProgress);
    assert_eq!(db_message(BountyService::winner_selection(3, 4, BountyStatus::Open).unwrap_err()), "You are not the owner of this bounty");
    assert_eq!(db_message(BountyService::winner_selection(3, 3, BountyStatus::Completed).unwrap_err()), "The bounty is not open");
}

#[test]
fn work_is_submitted_once_by_the_accepted_bidder() {
    assert!(BountyService::check_work_submitter(5, 5, BidStatus::Accepted).is_ok());
    assert_eq!(db_message(BountyService::check_work_submitter(5, 6, BidStatus::Accepted).unwrap_err()), "You can only submit work for your own bid");
    assert_eq!(db_message(BountyService::check_work_submitter(5, 5, BidStatus::Submitted).unwrap_err()), "You can only submit work for accepted bids");
    assert!(BountyService::check_no_work_submission(false).is_ok());
    assert_eq!(db_message(BountyService::check_no_work_submission(true).unwrap_err()), "Work submission already exists for this bid");
    assert_eq!(BountyService::finalize_check(5, 5).unwrap(), BountyStatus::UnderReview);
    assert_eq!(db_message(BountyService::finalize_check(5, 1).unwrap_err()), "You can only finalize your own work submission");
}

#[test]
fn deadlines_are_read_as_month_day_year() {
    assert_eq!(BountyService::bounty_deadline("03/07/2025").unwrap(), CalendarDate { year: 2025, month: 3, day: 7 });
    assert_eq!(BountyService::bounty_deadline("12/31/1999").unwrap(), CalendarDate { year: 1999, month: 12, day: 31 });
    assert!(matches!(BountyService::bounty_deadline("2025-03-07"), Err(ApiError::DbError(_))));
    assert!(BountyService::bounty_deadline("02/30/2025").is_err());
}

#[test]
fn chat_numbers_give_their_bidder_back() {
    let s = service();
    let bidder: u128 = 0x550e8400_e29b_41d4_a716_446655440000;
    let chat = s.generate_chat_number("BT-2024-1234", bidder);
    assert_eq!(chat, "BT-2024-1234-550e8400-e29b-41d4-a716-446655440000");
    assert_eq!(s.extract_bidder_id_from_chat_number(&chat).unwrap(), bidder);
    assert_eq!(db_message(s.extract_bidder_id_from_chat_number("BT-2024-1234").unwrap_err()), "Invalid chat number format");
    assert_eq!(
        db_message(s.extract_bidder_id_from_chat_number("BT-2024-1234-not-a-uuid").unwrap_err()),
        "Invalid chat number format: cannot extract bidder ID"
    );
}

#[test]
fn written_deadlines_read_back() {
    use_dates(&[(2025, 3, 7), (1999, 12, 31), (2000, 2, 29), (1, 1, 1), (0, 1, 1), (-44, 3, 15), (12345, 6, 1), (262142, 12, 31)]);
}

fn use_dates(dates: &[(i32, u32, u32)]) {
    for &(year, month, day) in dates {
        let d = CalendarDate { year, month, day };
        let text = nerdnuggets::calendar::format_us_date(&d);
        assert_eq!(BountyService::bounty_deadline(&text).unwrap(), d);
    }
}

#[test]
fn reviewed_work_moves_the_bounty() {
    let current = BountyStatus::UnderReview;
    assert_eq!(BountyService::bounty_status_after_review(BountySubmissionStatus::Approved, current), Some(BountyStatus::Completed));
    assert_eq!(BountyService::bounty_status_after_review(BountySubmissionStatus::Rejected, current), Some(BountyStatus::InProgress));
    assert_eq!(
        BountyService::bounty_status_after_review(BountySubmissionStatus::RequestRevision, current),
        Some(BountyStatus::RequestRevision)
    );
    assert_eq!(BountyService::bounty_status_after_review(BountySubmissionStatus::Submitted, current), None);
    assert_eq!(BountyService::bounty_status_after_review(BountySubmissionStatus::Draft, current), None);
    assert_eq!(BountyService::bounty_status_after_review(BountySubmissionStatus::Approved, BountyStatus::Completed), None);
}

#[test]
fn milestone_numbers_move_on_only_after_a_creation() {
    assert_eq!(BountyService::next_milestone_number(1, true), 2);
    assert_eq!(BountyService::next_milestone_number(3, false), 3);
    let outcomes = [true, false, false, true, true, false, true];
    let mut number: i16 = 1;
    let mut given = Vec::new();
    for created in outcomes {
        if created {
            given.push(number);
        }
        number = BountyService::next_milestone_number(number, created);
    }
    assert_eq!(given, vec![1, 2, 3, 4]);
    assert_eq!(number, 5);
}
