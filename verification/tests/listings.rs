use nerdnuggets::bounty::{BountyDifficulty, BountyStatus};
use nerdnuggets::models::User;
use nerdnuggets::prediction::PredictionStatus;
use nerdnuggets::query::SqlParam;
use nerdnuggets::repository::{BountyRepository, PredictionRepository, ProjectRepository};

const PROJECT_SELECT: &str = "SELECT p.id, p.nerd_id, p.proposal_id, p.user_id, p.title, p.description, p.cover_photo, p.category, p.status, p.funding_goal, p.duration, p.tags, p.arweave_tx_id, p.funding_amount, p.count_contributors, p.created_at, p.updated_at, p.dao_at, p.started_at FROM project p";

fn ints(params: &[SqlParam]) -> Vec<String> {
    params
        .iter()
        .map(|p| match p {
            SqlParam::Int(v) => format!("int:{v}"),
            SqlParam::SmallInt(v) => format!("small:{v}"),
            SqlParam::Text(t) => format!("text:{t}"),
            SqlParam::Id(v) => format!("id:{v}"),
        })
        .collect()
}

fn dollars(sql: &str) -> usize {
    sql.chars().filter(|c| *c == '$').count()
}

#[test]
fn public_projects_without_status_are_funding_or_completed() {
    let q = ProjectRepository::projects_query(&None, None, None, &None, None, None, Some(true), None, None).unwrap();
    assert_eq!(
        q.sql,
        format!("{PROJECT_SELECT} WHERE (p.status = 8 OR p.status = 9) ORDER BY p.updated_at DESC LIMIT $1 OFFSET $2")
    );
    assert_eq!(ints(&q.params), vec!["int:5", "int:0"]);
}

#[test]
fn my_projects_bind_title_user_status_and_category_in_order() {
    let q = ProjectRepository::projects_query(
        &Some("dna".to_string()),
        Some(8),
        Some(77),
        &None,
        Some(42),
        Some(true),
        None,
        Some(20),
        Some(10),
    )
    .unwrap();
    assert_eq!(
        q.sql,
        format!("{PROJECT_SELECT} WHERE p.title ILIKE $3 AND p.user_id = $4 AND p.status = $5 AND $6 = ANY(p.category) ORDER BY p.updated_at DESC LIMIT $1 OFFSET $2")
    );
    assert_eq!(ints(&q.params), vec!["int:10", "int:20", "text:%dna%", "id:42", "small:8", "id:77"]);
    assert_eq!(dollars(&q.sql), q.params.len());
}

#[test]
fn my_projects_without_a_user_list_nothing() {
    assert!(ProjectRepository::projects_query(&None, None, None, &None, None, Some(true), None, None, None).is_none());
}

#[test]
fn admins_see_every_project_past_creation() {
    let q = ProjectRepository::projects_query(&Some(String::new()), None, None, &Some("Admin".to_string()), None, None, None, None, None).unwrap();
    assert_eq!(q.sql, format!("{PROJECT_SELECT} WHERE p.status != 0 ORDER BY p.updated_at DESC LIMIT $1 OFFSET $2"));
}

#[test]
fn editors_see_their_assigned_projects() {
    let q = ProjectRepository::projects_query(&Some("x".to_string()), Some(2), None, &Some("Editor".to_string()), Some(9), None, None, None, None).unwrap();
    assert_eq!(
        q.sql,
        format!("{PROJECT_SELECT} JOIN project_editor pe ON p.id = pe.project_id AND pe.user_id = $4  WHERE p.title ILIKE $3 AND p.status = 2 ORDER BY p.updated_at DESC LIMIT $1 OFFSET $2")
    );
    assert_eq!(ints(&q.params), vec!["int:5", "int:0", "text:%x%", "id:9"]);
    let q = ProjectRepository::projects_query(&None, Some(5), None, &Some("Editor".to_string()), Some(9), None, None, None, None).unwrap();
    assert!(q.sql.contains("WHERE p.status > 2 ORDER BY"));
    assert!(ProjectRepository::projects_query(&None, None, None, &Some("Editor".to_string()), None, None, None, None, None).is_none());
}

#[test]
fn other_roles_see_all_projects() {
    let q = ProjectRepository::projects_query(&None, Some(3), None, &Some("Funder".to_string()), None, None, None, None, None).unwrap();
    assert_eq!(q.sql, format!("{PROJECT_SELECT} ORDER BY p.updated_at DESC LIMIT $1 OFFSET $2"));
    assert_eq!(q.params.len(), 2);
}

#[test]
fn dao_listing_for_voters_joins_their_votes() {
    let q = ProjectRepository::daos_query(&Some("ai".to_string()), Some(1), Some(5), Some(true), None, None).unwrap();
    assert_eq!(
        q.sql,
        "SELECT d.* FROM dao d JOIN dao_vote dv ON d.id = dv.dao_id AND dv.user_id = $4  WHERE d.title ILIKE $3 ORDER BY d.updated_at DESC LIMIT $1 OFFSET $2"
    );
    assert_eq!(ints(&q.params), vec!["int:5", "int:0", "text:%ai%", "id:5"]);
    let q = ProjectRepository::daos_query(&None, Some(1), None, None, None, None).unwrap();
    assert_eq!(q.sql, "SELECT d.* FROM dao d WHERE d.status = $3 ORDER BY d.updated_at DESC LIMIT $1 OFFSET $2");
    assert!(ProjectRepository::daos_query(&None, None, None, Some(true), None, None).is_none());
}

#[test]
fn bounty_listing_binds_every_filter() {
    let q = BountyRepository::bounties_query(
        &Some("ml".to_string()),
        Some(BountyStatus::Open),
        Some(3),
        Some(BountyDifficulty::Expert),
        &Some("Funder".to_string()),
        Some(8),
        Some(true),
        Some(1),
        Some(2),
    )
    .unwrap();
    assert_eq!(
        q.sql,
        "SELECT b.* FROM bounty b WHERE b.title ILIKE $3 AND b.status = $4 AND b.category = $5 AND b.difficulty = $6 AND b.user_id = $7 ORDER BY b.updated_at DESC LIMIT $1 OFFSET $2"
    );
    assert_eq!(ints(&q.params), vec!["int:2", "int:1", "text:%ml%", "small:1", "id:3", "small:3", "id:8"]);
    assert!(BountyRepository::bounties_query(&None, None, None, None, &Some("Funder".to_string()), None, Some(true), None, None).is_none());
    let q = BountyRepository::bounties_query(&None, None, None, None, &None, None, Some(true), None, None).unwrap();
    assert_eq!(q.sql, "SELECT b.* FROM bounty b ORDER BY b.updated_at DESC LIMIT $1 OFFSET $2");
}

fn user(wallet: Option<&str>) -> User {
    User {
        id: 1,
        username: None,
        name: None,
        password: None,
        email: "a@b.c".to_string(),
        verified_email: true,
        gmail: None,
        roles: vec![],
        institution: None,
        interests: vec![],
        avatar_url: None,
        bio: None,
        tier: "Bronze".to_string(),
        nerd_balance: 0,
        wallet_address: wallet.map(|w| w.to_string()),
        created_at: 0,
        updated_at: 0,
    }
}

#[test]
fn prediction_listing_joins_placements_of_the_wallet() {
    let u = user(Some("0xabc"));
    let q = PredictionRepository::predictions_query(&None, Some(PredictionStatus::Active), Some(4), Some(&u), Some(true), None, None);
    assert_eq!(
        q.sql,
        "SELECT p.* FROM prediction p JOIN prediction_placement pp ON p.proposal_id = pp.proposal_id AND p.number = pp.milestone_index AND pp.user_address ILIKE $5  WHERE p.status = $3 AND $4 = ANY(p.category) ORDER BY p.started_at, p.ended_at LIMIT $1 OFFSET $2"
    );
    assert_eq!(ints(&q.params), vec!["int:5", "int:0", "small:0", "id:4", "text:0xabc"]);
    let nobody = user(None);
    let q = PredictionRepository::predictions_query(&None, None, None, Some(&nobody), Some(true), None, None);
    assert_eq!(ints(&q.params), vec!["int:5", "int:0", "text:"]);
    assert_eq!(dollars(&q.sql), 3);
}
