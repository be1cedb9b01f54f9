use nerdnuggets::bounty::{BidStatus, BountyDifficulty, BountyStatus};
use nerdnuggets::calendar::CalendarDate;
use nerdnuggets::dto::user_dto::UserReadDto;
use nerdnuggets::models::bounty::{Bid, Bounty, BountyChat, BountyComment};
use nerdnuggets::models::prediction::Prediction;
use nerdnuggets::models::prediction_placement::PredictionPlacement;
use nerdnuggets::models::project::{Category, ProjectItem};
use nerdnuggets::models::{ProjectEditor, User, UserInfo};
use nerdnuggets::notices::{Notification, NotificationResponse};
use nerdnuggets::notification::NotificationType;
use nerdnuggets::prediction::PredictionStatus;

fn user() -> User {
    User {
        id: 7,
        username: None,
        name: Some("Ada".to_string()),
        password: None,
        email: "ada@example.com".to_string(),
        verified_email: true,
        gmail: None,
        roles: vec!["Researcher".to_string()],
        institution: None,
        interests: vec!["math".to_string()],
        avatar_url: None,
        bio: Some("bio".to_string()),
        tier: "Gold".to_string(),
        nerd_balance: 12,
        wallet_address: Some("0x1".to_string()),
        created_at: 1_704_110_400_000,
        updated_at: 0,
    }
}

fn info() -> UserInfo {
    user().to_info()
}

#[test]
fn users_as_shown() {
    let i = info();
    assert_eq!((i.username.as_str(), i.name.as_str(), i.institution.as_str()), ("", "Ada", ""));
    assert_eq!(i.roles, vec!["Researcher"]);
    let dto = UserReadDto::from(user());
    assert_eq!(dto.created_at, "2024-01-01 12:00:00 UTC");
    assert_eq!(dto.updated_at, "1970-01-01 00:00:00 UTC");
    assert_eq!((dto.tier.as_str(), dto.nerd_balance), ("Gold", 12));
    let mut far = user();
    far.created_at = i64::MAX;
    assert_eq!(UserReadDto::from(far).created_at, "");
}

#[test]
fn editors_feedback_only_in_full() {
    let e = ProjectEditor {
        id: 1,
        project_id: "p".to_string(),
        nerd_id: "RP-2024-1000".to_string(),
        user_id: 7,
        status: 2,
        feedback: Some("revise".to_string()),
        created_at: 0,
        updated_at: 0,
    };
    assert_eq!(e.to_info(true, info()).feedback.as_deref(), Some("revise"));
    assert_eq!(e.to_info(false, info()).feedback, None);
}

#[test]
fn listed_projects_read_missing_texts_as_empty() {
    let p = ProjectItem {
        id: 1,
        nerd_id: "RP-2024-1000".to_string(),
        user_id: 7,
        title: None,
        description: Some("d".to_string()),
        cover_photo: None,
        category: vec![3],
        status: 8,
        funding_goal: Some(100),
        duration: None,
        tags: vec!["x".to_string()],
        funding_amount: 5,
        count_contributors: 1,
        created_at: 1,
        updated_at: 2,
        dao_at: None,
        started_at: Some(3),
    };
    let cat = Category { id: 3, name: "Physics".to_string(), is_available: true, created_at: 0, updated_at: 0 };
    let i = p.to_info(info(), None, vec![cat]);
    assert_eq!((i.title.as_str(), i.description.as_str(), i.status), ("", "d", 8));
    assert_eq!(i.category[0].name, "Physics");
    assert_eq!((i.started_at, i.funding_goal), (Some(3), Some(100)));
}

#[test]
fn bounties_show_their_deadline() {
    let b = Bounty {
        id: 1,
        nerd_id: "BT-2025-1000".to_string(),
        contract_id: 20251000,
        user_id: 7,
        status: BountyStatus::Open,
        title: "t".to_string(),
        description: "d".to_string(),
        upload_file: None,
        cover_photo: None,
        category: 3,
        difficulty: BountyDifficulty::Advanced,
        tags: vec![],
        reward_amount: 500,
        reward_currency: "USDC".to_string(),
        deadline: CalendarDate { year: 2025, month: 9, day: 1 },
        requirements: vec!["r".to_string()],
        deliverables: vec![],
        evaluation_criteria: vec![],
        by_milestone: false,
        admin_notes: None,
        cancellation_reason: None,
        count_view: 0,
        count_comment: 0,
        count_bid: 0,
        created_at: 0,
        updated_at: 0,
        approved_at: None,
        rejected_at: None,
        canceled_at: None,
        started_at: None,
    };
    let i = b.to_info(info(), None, vec![]);
    assert_eq!(i.deadline, "09/01/2025");
    assert_eq!((i.status, i.difficulty, i.reward_amount), (BountyStatus::Open, BountyDifficulty::Advanced, 500));
    let bid = Bid {
        id: 2,
        bounty_id: 1,
        nerd_id: "BT-2025-1000".to_string(),
        user_id: 8,
        status: BidStatus::Submitted,
        title: "bid".to_string(),
        description: "d".to_string(),
        bid_amount: 400,
        timeline: "2w".to_string(),
        technical_approach: "a".to_string(),
        relevant_experience: None,
        budget_breakdown: None,
        upload_files: vec![],
        created_at: 0,
        updated_at: 0,
        accepted_at: None,
        rejected_at: None,
        canceled_at: None,
        completed_at: None,
    };
    assert_eq!(bid.to_info(info(), vec![]).bid_amount, 400);
    let c = BountyComment { id: 3, user_id: 7, bounty_id: 1, nerd_id: "n".to_string(), comment: "hi".to_string(), created_at: 5, updated_at: 6 };
    assert_eq!((c.to_info(info()).comment.as_str(), c.to_info(info()).created_at), ("hi", 5));
    let m = BountyChat {
        id: 4,
        user_id: 7,
        bounty_id: 1,
        nerd_id: "n".to_string(),
        chat_number: "c".to_string(),
        message: "hello".to_string(),
        file_urls: vec!["f".to_string()],
        is_read: false,
        created_at: 1,
        updated_at: 2,
    };
    assert_eq!(m.to_info(info()).file_urls, vec!["f"]);
}

#[test]
fn predictions_show_their_window() {
    let p = Prediction {
        id: 1,
        nerd_id: "PN-2025-1000".to_string(),
        contract_id: 1,
        status: PredictionStatus::Upcoming,
        number: 1,
        milestone_id: 2,
        title: "t".to_string(),
        description: "d".to_string(),
        funding_amount: 0,
        pool_amount: 0,
        yes_pool_amount: 0,
        no_pool_amount: 0,
        progress: 0,
        count_predictors: 0,
        count_view: 0,
        project_id: 3,
        project_nerd_id: "RP-2025-1000".to_string(),
        proposal_id: 20251000,
        project_title: "p".to_string(),
        user_id: 7,
        cover_photo: None,
        category: vec![],
        tags: vec![],
        created_at: 0,
        updated_at: 0,
        started_at: CalendarDate { year: 2025, month: 1, day: 31 },
        ended_at: CalendarDate { year: 2025, month: 2, day: 28 },
        released_at: None,
    };
    let i = p.to_info(info(), vec![]);
    assert_eq!((i.started_at.as_str(), i.ended_at.as_str()), ("01/31/2025", "02/28/2025"));
    let placed = PredictionPlacement {
        id: 1,
        user_address: "0xu".to_string(),
        proposal_id: 2,
        milestone_index: 1,
        predicts_success: true,
        nerd_amount: 10,
        block_number: 99,
        created_at: 0,
        updated_at: 0,
    };
    let i = placed.to_info();
    assert_eq!((i.user_address.as_str(), i.nerd_amount, i.block_number), ("0xu", 10, 99));
}

#[test]
fn stored_notifications_are_sent_with_their_kind() {
    let n = Notification {
        id: 1,
        user_id: 7,
        notification_type: 15,
        title: "t".to_string(),
        message: "m".to_string(),
        data: Some("{\"action\":\"dao_vote\"}".to_string()),
        is_read: false,
        created_at: 0,
        updated_at: 0,
    };
    let r = NotificationResponse::from(n.clone());
    assert_eq!(r.notification_type, NotificationType::DAOVote);
    assert_eq!(r.data, n.data);
    let r = NotificationResponse::from(Notification { notification_type: 99, ..n });
    assert_eq!(r.notification_type, NotificationType::InviteEditor);
}
