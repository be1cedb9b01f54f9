use nerdnuggets::apple::decode_apple_id_token;
use nerdnuggets::commons::{generate_random_number, get_article_id_from_proposal_id, get_base_url, is_valid_email};
use nerdnuggets::error::{ApiError, DbError, UserError};
use nerdnuggets::ids::uuid_from_str;
use nerdnuggets::models::User;
use nerdnuggets::records::{nerd_id_and_contract_id, nerd_id_candidate, nerd_id_for_year, resolve_record_key, text_starts_with, RecordKey};
use nerdnuggets::service::UserService;
use nerdnuggets::username::{base_username, generate_username, pick_username, username_taken};

fn db_message(e: ApiError) -> String {
    match e {
        ApiError::DbError(DbError::Str(m)) => m,
        other => panic!("unexpected error {other:?}"),
    }
}

#[test]
fn uuids_are_read_in_their_usual_forms() {
    let id = 0x550e8400_e29b_41d4_a716_446655440000u128;
    assert_eq!(uuid_from_str("550e8400-e29b-41d4-a716-446655440000").unwrap(), id);
    assert_eq!(uuid_from_str("550E8400E29B41D4A716446655440000").unwrap(), id);
    assert_eq!(db_message(uuid_from_str("RP-2024-1234").unwrap_err()), "Invalid UUID format");
}

#[test]
fn records_are_named_by_uuid_or_nerd_id() {
    match resolve_record_key("550e8400-e29b-41d4-a716-446655440000", "RP-").unwrap() {
        RecordKey::Id(v) => assert_eq!(v, 0x550e8400_e29b_41d4_a716_446655440000),
        other => panic!("{other:?}"),
    }
    match resolve_record_key("RP-2024-1234", "RP-").unwrap() {
        RecordKey::NerdId(s) => assert_eq!(s, "RP-2024-1234"),
        other => panic!("{other:?}"),
    }
    assert_eq!(db_message(resolve_record_key("BT-2024-1234", "RP-").unwrap_err()), "Invalid id format");
    assert!(text_starts_with("BT-1", "BT-"));
    assert!(!text_starts_with("B", "BT-"));
}

#[test]
fn nerd_ids_and_contract_ids() {
    let (nerd, contract) = nerd_id_and_contract_id("RP", 2024, 1234);
    assert_eq!((nerd.as_str(), contract), ("RP-2024-1234", 20241234));
    let (year_used, number_used, candidate) = nerd_id_candidate("BT");
    assert!((1000..=9999).contains(&number_used));
    assert_eq!(candidate, nerd_id_for_year("BT", year_used, number_used));
    let (nerd, contract) = candidate.unwrap();
    let parts: Vec<&str> = nerd.split('-').collect();
    assert_eq!(parts.len(), 3);
    assert_eq!(parts[0], "BT");
    let year: i32 = parts[1].parse().unwrap();
    let number: i32 = parts[2].parse().unwrap();
    assert!((1000..=9999).contains(&number));
    assert_eq!(contract, year * 10000 + number);
}

#[test]
fn nerd_ids_for_a_given_year() {
    let (nerd, contract) = nerd_id_for_year("RP", 2024, 1234).unwrap();
    assert_eq!((nerd.as_str(), contract), ("RP-2024-1234", 20241234));
    let (nerd, contract) = nerd_id_for_year("BT", 214748, 1000).unwrap();
    assert_eq!((nerd.as_str(), contract), ("BT-214748-1000", 2147481000));
    let (nerd, contract) = nerd_id_for_year("BT", -5, 1000).unwrap();
    assert_eq!((nerd.as_str(), contract), ("BT--5-1000", -49000));
    assert!(nerd_id_for_year("BT", 214748, 9999).is_none());
    assert!(nerd_id_for_year("RP", 300000, 1234).is_none());
    assert!(nerd_id_for_year("RP", -300000, 1234).is_none());
}

#[test]
fn helpers() {
    assert_eq!(get_article_id_from_proposal_id("20241234"), "NB20241234A");
    for _ in 0..50 {
        assert!((5..=7).contains(&generate_random_number(5, 7)));
    }
    assert_eq!(generate_random_number(3, 3), 3);
    assert!(is_valid_email("ada@example.com"));
    assert!(!is_valid_email("ada+news@example.com"));
    assert!(!is_valid_email("not an address"));
    assert_eq!(get_base_url("https://example.com/a/b?c=d"), "https://example.com/?c=d");
    assert_eq!(get_base_url("not a url"), "not a url");
}

#[test]
fn usernames_follow_names_or_addresses() {
    assert_eq!(base_username(Some("Ada  Lovelace King"), "x@y.z"), "adalovelace");
    assert_eq!(base_username(Some("Ada"), "x@y.z"), "ada");
    assert_eq!(base_username(Some("Ada\u{3000}Lovelace"), "x@y.z"), "adalovelace");
    assert_eq!(base_username(Some("\u{a0}Ada\u{2029}Byron\u{85}King"), "x@y.z"), "adabyron");
    assert_eq!(base_username(Some("Ada\u{200b}Byron"), "x@y.z"), "adabyron");
    assert_eq!(base_username(Some("   "), "x@y.z"), "x");
    assert_eq!(base_username(Some(""), "alice@example.com"), "alice");
    assert_eq!(base_username(Some("!!"), "alice@example.com"), "user");
    assert_eq!(base_username(None, "@example.com"), "user");
    assert_eq!(generate_username(Some(""), "alice@example.com", &Vec::new()), "alice");
    assert_eq!(base_username(None, "john.smith@example.com"), "johnsmith");
    let taken = vec!["adalovelace".to_string(), "adalovelace1".to_string()];
    assert_eq!(generate_username(Some("Ada Lovelace"), "a@b.c", &taken), "adalovelace2");
    assert!(username_taken(&taken, &"adalovelace1".to_string()));
    let all: Vec<String> = std::iter::once("bob".to_string()).chain((1..=99).map(|i| format!("bob{i}"))).collect();
    assert_eq!(pick_username(Some("Bob"), "b@b.b", &all, 4242, 1_700_000_000), "bob4242");
    let mut more = all.clone();
    more.push("bob4242".to_string());
    assert_eq!(pick_username(Some("Bob"), "b@b.b", &more, 4242, 1_700_000_000), "bob1700000000");
    let fresh = generate_username(Some("Bob"), "b@b.b", &all);
    assert!(!all.contains(&fresh));
}

fn user(password: Option<&str>) -> User {
    User {
        id: 1,
        username: None,
        name: None,
        password: password.map(|p| p.to_string()),
        email: "a@b.c".to_string(),
        verified_email: true,
        gmail: None,
        roles: vec![],
        institution: None,
        interests: vec![],
        avatar_url: None,
        bio: None,
        tier: "Bronze".to_string(),
        nerd_balance: 0,
        wallet_address: None,
        created_at: 0,
        updated_at: 0,
    }
}

#[test]
fn user_decisions() {
    assert_eq!(UserService::non_empty(Some("0x1".to_string())).as_deref(), Some("0x1"));
    assert_eq!(UserService::non_empty(Some(String::new())), None);
    assert!(UserService::check_username_free(None, 1).is_ok());
    assert!(UserService::check_username_free(Some(1), 1).is_ok());
    assert!(matches!(
        UserService::check_username_free(Some(2), 1),
        Err(ApiError::UserError(UserError::UsernameAlreadyExists))
    ));
    assert!(matches!(UserService::check_email_free(true), Err(ApiError::UserError(UserError::UserAlreadyExists))));
    assert!(UserService::check_email_free(false).is_ok());
    assert!(UserService::availability(false).is_available);
    assert!(!UserService::availability(true).is_available);
}

#[test]
fn passwords_are_checked_against_bcrypt_hashes() {
    let env = nerdnuggets::env::Env::from_vars(nerdnuggets::env::EnvVars {
        port: None,
        jwt_secret: String::new(),
        jwt_ttl_in_minutes: None,
        database_url: String::new(),
        database_max_connections: None,
        aws_access_key_id: String::new(),
        aws_secret_access_key: String::new(),
        aws_bucket_name: String::new(),
        email_verify_exp_second: None,
        email_verify_limit: None,
        email_region: String::new(),
        frontend_url: String::new(),
        vapid_private_pem: String::new(),
        production: None,
        ai_backend_url: String::new(),
        google_map_api_key: String::new(),
        evm_job_schedule: String::new(),
        dao_contract_address: String::new(),
        rpc_url: String::new(),
        chain_id: None,
        wallet_private_key: String::new(),
    });
    let service = UserService::new(&std::sync::Arc::new(nerdnuggets::repository::DatabasePool::init(&env)));
    let u = user(Some("$2a$04$UuTkLRZZ6QofpDOlMz32MuuxEHA43WOemOYHPz6.SjsVsyO1tDU96"));
    assert!(service.verify_password(&u, "password"));
    assert!(!service.verify_password(&u, "Password"));
    assert!(!service.verify_password(&user(Some("not a hash")), "password"));
}

#[test]
fn apple_identity_tokens() {
    // {"sub":"001.abc","email":"a@privaterelay.appleid.com","is_private_email":"true","email_verified":true}
    let payload = "eyJzdWIiOiIwMDEuYWJjIiwiZW1haWwiOiJhQHByaXZhdGVyZWxheS5hcHBsZWlkLmNvbSIsImlzX3ByaXZhdGVfZW1haWwiOiJ0cnVlIiwiZW1haWxfdmVyaWZpZWQiOnRydWV9";
    let token = format!("header.{payload}.signature");
    let u = decode_apple_id_token(&token).unwrap();
    assert_eq!(u.sub, "001.abc");
    assert_eq!(u.email.as_deref(), Some("a@privaterelay.appleid.com"));
    assert_eq!(u.is_private_email.as_deref(), Some("true"));
    assert_eq!(u.email_verified, None);
    assert!(u.name.is_none());
    assert_eq!(decode_apple_id_token("a.b").unwrap_err(), "Invalid JWT token format");
    assert!(decode_apple_id_token("a.!!!!.c").is_err());
    // "{}" has no subject.
    assert_eq!(decode_apple_id_token("h.e30=.s").unwrap().sub, "unknown");
}

#[test]
fn names_split_where_the_standard_library_sees_whitespace() {
    for c in ('\u{0}'..='\u{3100}').chain(['\u{feff}', '\u{1f600}']) {
        let name = format!("a{c}b{c}z");
        let base = base_username(Some(&name), "x@y.z");
        assert_eq!(base == "ab", c.is_whitespace(), "{:x}", c as u32);
    }
}
