use nerdnuggets::archive::{bounty_creation_tags, milestone_update_tags, project_submission_tags, upload_tags};
use nerdnuggets::mail::{auth_email_content, RESET_SUBJECT, VERIFY_SUBJECT};
use nerdnuggets::notices::{for_users, CreateNotification};
use nerdnuggets::notification::NotificationType;
use nerdnuggets::types::EmailVerifyType;

fn pairs(v: &Option<Vec<(String, String)>>) -> Vec<(&str, &str)> {
    v.as_ref().unwrap().iter().map(|(k, v)| (k.as_str(), v.as_str())).collect()
}

#[test]
fn editor_invitations_name_the_project_and_admin() {
    let n = CreateNotification::editor_invitation(9, "Fusion", "Ada");
    assert_eq!(n.user_id, 9);
    assert_eq!(n.notification_type, NotificationType::InviteEditor);
    assert_eq!(n.title, "Editor Invitation");
    assert_eq!(n.message, "Ada has invited you to be an editor for project 'Fusion'");
    assert_eq!(pairs(&n.data), vec![("project_name", "Fusion"), ("admin_name", "Ada"), ("action", "invite_editor")]);
}

#[test]
fn notification_messages() {
    assert_eq!(CreateNotification::editor_declined(1, "Bob", "P").message, "Bob has declined the editor invitation for project 'P'");
    assert_eq!(CreateNotification::editor_accepted(1, "Bob", "P").message, "Bob has accepted the editor invitation for project 'P'");
    assert_eq!(CreateNotification::new_bounty(1, "B", "C").message, "C has created a new bounty: 'B'");
    assert_eq!(CreateNotification::new_dao(1, "D", "C").message, "C has created a new DAO: 'D'");
    assert_eq!(CreateNotification::new_prediction(1, "Q", "C").message, "C has created a new prediction: 'Q'");
    assert_eq!(CreateNotification::bid_approved(1, "B").message, "Your bid for 'B' has been approved!");
    assert_eq!(CreateNotification::bid_rejected(1, "B").message, "Your bid for 'B' has been rejected");
    assert_eq!(CreateNotification::bid_reviewed(1, "B").message, "Your bid for 'B' is currently under review");
    assert_eq!(CreateNotification::new_project(1, "P", "C").message, "C has created a new project: 'P'");
    assert_eq!(CreateNotification::project_milestone(1, "P", "M").message, "Milestone 'M' has been completed for project 'P'");
    assert_eq!(CreateNotification::project_comment(1, "P", "C").message, "C commented on project 'P'");
    assert_eq!(CreateNotification::bounty_comment(1, "B", "C").message, "C commented on bounty 'B'");
    assert_eq!(CreateNotification::dao_vote(1, "D", "T").message, "A new proposal 'T' requires your vote in DAO 'D'");
    assert_eq!(CreateNotification::funding_update(1, "P", "5 NERD").message, "Project 'P' has received 5 NERD in funding");
    assert_eq!(CreateNotification::prediction_result(1, "Q", "yes").message, "Prediction 'Q' has resolved: yes");
    let s = CreateNotification::system_message(1, "Hello", "World");
    assert_eq!((s.title.as_str(), s.message.as_str()), ("Hello", "World"));
    assert_eq!(pairs(&s.data), vec![("action", "system_message")]);
    assert_eq!(CreateNotification::funding_update(1, "P", "5").notification_type, NotificationType::FundingUpdate);
}

#[test]
fn broadcasts_go_to_each_user() {
    let t = CreateNotification::new_dao(0, "D", "C");
    let all = for_users(&vec![3, 4, 5], &t);
    assert_eq!(all.iter().map(|n| n.user_id).collect::<Vec<_>>(), vec![3, 4, 5]);
    assert!(all.iter().all(|n| n.message == t.message && n.title == t.title && n.data == t.data));
    assert!(for_users(&vec![], &t).is_empty());
}

#[test]
fn verification_emails_carry_the_code() {
    let (subject, body) = auth_email_content("123456", EmailVerifyType::VerifyEmail, &None);
    assert_eq!(subject, VERIFY_SUBJECT);
    assert_eq!(subject, "Request To Verify Your Email Address(nerdnuggets.org)");
    assert!(body.contains("Verification Code: 123456</p>"));
    assert!(body.starts_with("<div style=\"width: 100%; padding: 10 auto;\">"));
    let (s2, b2) = auth_email_content("123456", EmailVerifyType::AddEmail, &Some("https://x".to_string()));
    assert_eq!((s2, b2), (subject, body));
}

#[test]
fn reset_emails_carry_the_link_or_the_code() {
    let (subject, body) = auth_email_content("999", EmailVerifyType::ResetPassword, &Some("https://reset/abc".to_string()));
    assert_eq!(subject, RESET_SUBJECT);
    assert!(body.contains("<a href=\"https://reset/abc\" style=\"color: #1155cc; text-decoration: underline;\">Reset Password</a>"));
    assert!(!body.contains("999"));
    let (_, body) = auth_email_content("999", EmailVerifyType::ResetPassword, &None);
    assert!(body.contains("Verification Code: 999</p>"));
    assert!(body.contains("this link will expire in 15 minutes"));
}

#[test]
fn archived_records_are_tagged() {
    let tags = upload_tags("Bounty", "2025-01-01T00:00:00+00:00", Some(bounty_creation_tags("b1", "BT-2025-1000", "u1")));
    let got: Vec<(&str, &str)> = tags.iter().map(|(k, v)| (k.as_str(), v.as_str())).collect();
    assert_eq!(
        got,
        vec![
            ("Content-Type", "application/json"),
            ("App-Name", "NerdNuggets"),
            ("Type", "Bounty"),
            ("Timestamp", "2025-01-01T00:00:00+00:00"),
            ("Bounty-Id", "b1"),
            ("Nerd-Id", "BT-2025-1000"),
            ("User-Id", "u1"),
        ]
    );
    assert_eq!(upload_tags("Project", "t", None).len(), 4);
    assert_eq!(project_submission_tags("p", "n", "u")[0].0, "Project-Id");
    assert_eq!(milestone_update_tags("m", "p", "n")[0], ("Milestone-Id".to_string(), "m".to_string()));
}
