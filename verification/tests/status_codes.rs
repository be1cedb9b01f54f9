use nerdnuggets::types::{FeedbackStatus, ProjectStatus};

#[test]
fn project_status_codes_round_trip() {
    for code in 0i16..=10 {
        assert_eq!(ProjectStatus::from(code).to_i16(), code);
    }
    assert_eq!(ProjectStatus::from(42), ProjectStatus::Rejected);
    assert_eq!(FeedbackStatus::from(1), FeedbackStatus::Accepted);
}

use nerdnuggets::bounty::{BidStatus, BountyDifficulty, BountyReviewType, BountyStatus};
use nerdnuggets::error::{TokenError, UploadError, UserError};
use nerdnuggets::index_store::{DummyStore, IndexStore};
use nerdnuggets::notification::{MessageType, NotificationTab, NotificationType};
use nerdnuggets::prediction::PredictionStatus;
use nerdnuggets::speech::{SpeechType, VoiceType};
use nerdnuggets::types::{AIErrorCheckStatus, MileStoneStatus, ProjectResultStatus, UserRoleType, UserTierType};

#[test]
fn other_status_codes_round_trip() {
    for code in 0i16..=4 {
        assert_eq!(MileStoneStatus::from(code).to_i16(), code);
    }
    for code in 0i16..=3 {
        assert_eq!(FeedbackStatus::from(code).to_i16(), code);
        assert_eq!(ProjectResultStatus::from(code).to_i16(), code);
    }
    assert_eq!(FeedbackStatus::from(-1), FeedbackStatus::Rejected);
    let _ = AIErrorCheckStatus::from(0).to_i16();
}

#[test]
fn stored_enums_decode_their_codes() {
    for code in 0i16..=7 {
        assert_eq!(i16::from(BountyStatus::try_from(code).unwrap()), code);
    }
    assert_eq!(BountyStatus::try_from(8).unwrap_err(), "Invalid value for BountyStatus");
    for code in 0i16..=6 {
        assert_eq!(i16::from(BidStatus::try_from(code).unwrap()), code);
    }
    assert_eq!(BidStatus::try_from(-1).unwrap_err(), "Invalid value for BidStatus");
    assert_eq!(i16::from(BountyDifficulty::try_from(3).unwrap()), 3);
    assert_eq!(BountyDifficulty::try_from(4).unwrap_err(), "Invalid value for BountyDifficulty");
    assert_eq!(i16::from(BountyReviewType::try_from(2).unwrap()), 2);
    assert_eq!(BountyReviewType::try_from(3).unwrap_err(), "Invalid value for BountyReviewType");
    assert_eq!(i16::from(PredictionStatus::try_from(1).unwrap()), 1);
    assert_eq!(PredictionStatus::try_from(9).unwrap_err(), "Invalid value for PredictionStatus");
}

#[test]
fn notification_catalogue() {
    for code in 0i32..=18 {
        assert_eq!(i32::from(NotificationType::try_from(code).unwrap()), code);
    }
    assert_eq!(NotificationType::try_from(19).unwrap_err(), "Invalid value for NotificationType: 19");
    assert_eq!(i32::from(MessageType::try_from(1).unwrap()), 1);
    assert_eq!(MessageType::try_from(2).unwrap_err(), "Invalid value for MessageType: 2");
    for name in ["all", "unread", "funding", "dao", "projects", "predictions", "site"] {
        assert_eq!(NotificationTab::try_from(name).unwrap().as_str(), name);
    }
    assert_eq!(NotificationTab::try_from("DAO").unwrap_err(), "Invalid notification tab: DAO");
    assert_eq!(
        NotificationTab::DAO.to_notification_types(),
        vec![NotificationType::NewDAO, NotificationType::DAOVote]
    );
    assert!(NotificationTab::All.to_notification_types().is_empty());
    let s: &'static str = NotificationTab::Site.into();
    assert_eq!(s, "site");
}

#[test]
fn speech_and_roles() {
    assert_eq!(VoiceType::try_from(0).unwrap().to_string(), "alloy");
    assert!(VoiceType::try_from(42).is_err());
    assert!(SpeechType::try_from(0).is_ok());
    assert_eq!(UserRoleType::Editor.to_string(), "Editor");
    assert_eq!(UserTierType::Bronze.to_string(), "Bronze");
}

#[test]
fn error_messages_and_statuses() {
    assert_eq!(UserError::UserNotFound.to_string(), "Account not found.");
    assert_eq!(UserError::UserNotFound.status_code(), 404);
    assert_eq!(UserError::SomethingWentWrong("boom".to_string()).status_code(), 500);
    assert_eq!(TokenError::TokenCreationError("x".to_string()).to_string(), "Token error: x");
    assert_eq!(TokenError::MissingToken.status_code(), 401);
    let _ = UploadError::NoFileProvided.to_string();
}

#[test]
fn memory_store_gives_back_what_was_stored() {
    let mut store = DummyStore::new(None);
    assert_eq!(store.get().unwrap(), None);
    store.set(17).unwrap();
    assert_eq!(store.get().unwrap(), Some(17));
    assert_eq!(DummyStore::new(Some(3)).get().unwrap(), Some(3));
}
