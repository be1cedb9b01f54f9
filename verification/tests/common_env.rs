use nerdnuggets::env::{Env, EnvTexts};

fn texts() -> EnvTexts {
    EnvTexts {
        port: None,
        jwt_secret: "secret".to_string(),
        jwt_ttl_in_minutes: Some("45".to_string()),
        database_url: "postgres://localhost/nerd".to_string(),
        database_max_connections: Some("not a number".to_string()),
        aws_access_key_id: "key".to_string(),
        aws_secret_access_key: "secret key".to_string(),
        aws_bucket_name: "bucket".to_string(),
        email_verify_exp_second: Some("-5".to_string()),
        email_verify_limit: Some("70000".to_string()),
        email_region: "us-east-1".to_string(),
        frontend_url: "https://nerdnuggets.org".to_string(),
        vapid_private_pem: "pem".to_string(),
        production: Some("true".to_string()),
        ai_backend_url: "https://ai.example".to_string(),
        google_map_api_key: "maps".to_string(),
        evm_job_schedule: "0 * * * * *".to_string(),
        dao_contract_address: "0xdao".to_string(),
        rpc_url: "https://rpc.example".to_string(),
        chain_id: Some("+137".to_string()),
        wallet_private_key: "wallet".to_string(),
    }
}

#[test]
fn env_reads_defaults_and_parses_settings() {
    let env = Env::from_texts(texts());
    assert_eq!(env.port, 8000);
    assert_eq!(env.jwt_ttl_in_minutes, 45);
    assert_eq!(env.database_max_connections, 10);
    assert_eq!(env.email_verify_exp_second, -5);
    assert_eq!(env.email_verify_limit, 5);
    assert!(env.production);
    assert_eq!(env.chain_id, 137);
    assert_eq!(env.dao_duration, 7 * 24 * 3600);
    assert_eq!(env.jwt_secret, "secret");
}

#[test]
fn env_outside_production_keeps_dao_votes_two_hours() {
    let mut t = texts();
    t.production = Some("yes".to_string());
    let env = Env::from_texts(t);
    assert!(!env.production);
    assert_eq!(env.dao_duration, 2 * 3600);
}

#[test]
fn passkeys_have_six_digits() {
    let env = Env::from_texts(texts());
    for _ in 0..100 {
        let p = env.generate_passkey();
        assert!((100_000..=999_999).contains(&p));
    }
}

#[test]
fn env_reads_given_numbers_and_flags() {
    let mut t = texts();
    t.port = Some("8080".to_string());
    t.database_max_connections = Some("25".to_string());
    t.email_verify_limit = Some("-7".to_string());
    t.production = Some("false".to_string());
    t.chain_id = Some("-1".to_string());
    let env = Env::from_texts(t);
    assert_eq!((env.port, env.database_max_connections, env.email_verify_limit), (8080, 25, -7));
    assert!(!env.production);
    assert_eq!(env.chain_id, 1);
}

#[test]
fn env_refuses_malformed_numbers() {
    let mut t = texts();
    t.port = Some("80a".to_string());
    t.jwt_ttl_in_minutes = Some("99999999999999999999".to_string());
    t.chain_id = Some("18446744073709551616".to_string());
    t.email_verify_limit = Some("+".to_string());
    let env = Env::from_texts(t);
    assert_eq!((env.port, env.jwt_ttl_in_minutes, env.chain_id, env.email_verify_limit), (8000, 30, 1, 5));
}

#[test]
fn env_numbers_at_their_limits() {
    let mut t = texts();
    t.port = Some("4294967295".to_string());
    t.email_verify_exp_second = Some("-9223372036854775808".to_string());
    t.email_verify_limit = Some("-32768".to_string());
    t.chain_id = Some("18446744073709551615".to_string());
    t.jwt_ttl_in_minutes = Some("-0".to_string());
    let env = Env::from_texts(t);
    assert_eq!(env.port, u32::MAX);
    assert_eq!(env.email_verify_exp_second, i64::MIN);
    assert_eq!(env.email_verify_limit, i16::MIN);
    assert_eq!(env.chain_id, u64::MAX);
    assert_eq!(env.jwt_ttl_in_minutes, 0);

    let mut t = texts();
    t.port = Some("4294967296".to_string());
    t.email_verify_exp_second = Some("9223372036854775808".to_string());
    t.email_verify_limit = Some("32768".to_string());
    t.chain_id = Some("-0".to_string());
    t.jwt_ttl_in_minutes = Some("+-1".to_string());
    t.production = Some("True".to_string());
    let env = Env::from_texts(t);
    assert_eq!((env.port, env.email_verify_exp_second, env.email_verify_limit, env.chain_id), (8000, 100, 5, 1));
    assert_eq!(env.jwt_ttl_in_minutes, 30);
    assert!(!env.production);

    let mut t = texts();
    t.port = Some("007".to_string());
    t.email_verify_limit = Some("+32767".to_string());
    t.database_max_connections = Some(" 5".to_string());
    let env = Env::from_texts(t);
    assert_eq!((env.port, env.email_verify_limit, env.database_max_connections), (7, i16::MAX, 10));
}
