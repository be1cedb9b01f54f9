//! Settings of the server, read from the process environment at start.

use vstd::prelude::*;
use crate::parse::{
    parse_bool, parse_i16, parse_i64, parse_u32, parse_u64, parsed_bool, parsed_i16, parsed_i64, parsed_u32,
    parsed_u64_value,
};

verus! {

/// Seconds in an hour.
pub const SECONDS_PER_HOUR: i64 = 3600;

/// Seconds in a day.
pub const SECONDS_PER_DAY: i64 = 86400;

/// Settings of the server.
#[derive(Debug, Clone)]
pub struct Env {
    pub port: u32,
    pub jwt_secret: String,
    pub jwt_ttl_in_minutes: i64,
    pub database_url: String,
    pub database_max_connections: u32,
    pub aws_access_key_id: String,
    pub aws_secret_access_key: String,
    pub aws_bucket_name: String,
    pub email_verify_exp_second: i64,
    pub email_verify_limit: i16,
    pub email_region: String,
    pub frontend_url: String,
    pub vapid_private_pem: String,
    pub production: bool,
    pub ai_backend_url: String,
    pub google_map_api_key: String,
    pub evm_job_schedule: String,
    pub dao_contract_address: String,
    pub rpc_url: String,
    pub chain_id: u64,
    pub wallet_private_key: String,
    /// How long a DAO vote stays open, in seconds.
    pub dao_duration: i64,
}

/// How long a DAO vote stays open: a week in production, two hours elsewhere.
pub open spec fn dao_duration_for(production: bool) -> i64 {
    if production {
        (7 * SECONDS_PER_DAY) as i64
    } else {
        (2 * SECONDS_PER_HOUR) as i64
    }
}

/// How long a DAO vote stays open, in seconds.
pub fn dao_duration_seconds(production: bool) -> (d: i64)
    ensures
        d == dao_duration_for(production),
{
    if production {
        7 * SECONDS_PER_DAY
    } else {
        2 * SECONDS_PER_HOUR
    }
}

/// An optional setting with its default: the value where one was given, else the default.
pub open spec fn or_default<T>(value: Option<T>, default: T) -> T {
    match value {
        Some(v) => v,
        None => default,
    }
}

/// The settings that the server reads from its environment, each already parsed: `None`
/// where a variable with a default is missing or does not parse.
pub struct EnvVars {
    pub port: Option<u32>,
    pub jwt_secret: String,
    pub jwt_ttl_in_minutes: Option<i64>,
    pub database_url: String,
    pub database_max_connections: Option<u32>,
    pub aws_access_key_id: String,
    pub aws_secret_access_key: String,
    pub aws_bucket_name: String,
    pub email_verify_exp_second: Option<i64>,
    pub email_verify_limit: Option<i16>,
    pub email_region: String,
    pub frontend_url: String,
    pub vapid_private_pem: String,
    pub production: Option<bool>,
    pub ai_backend_url: String,
    pub google_map_api_key: String,
    pub evm_job_schedule: String,
    pub dao_contract_address: String,
    pub rpc_url: String,
    pub chain_id: Option<u64>,
    pub wallet_private_key: String,
}

impl Env {
    /// The settings made of the variables read: each optional one falls back to its
    /// default (port 8000, token lifetime 30 minutes, 10 connections, passkeys valid 100
    /// seconds with 5 tries, chain 1, not production), and the DAO vote lasts according
    /// to the production flag.
    pub fn from_vars(vars: EnvVars) -> (env: Env)
        ensures
            env.port == or_default(vars.port, 8000u32),
            env.jwt_ttl_in_minutes == or_default(vars.jwt_ttl_in_minutes, 30i64),
            env.database_max_connections == or_default(vars.database_max_connections, 10u32),
            env.email_verify_exp_second == or_default(vars.email_verify_exp_second, 100i64),
            env.email_verify_limit == or_default(vars.email_verify_limit, 5i16),
            env.production == or_default(vars.production, false),
            env.chain_id == or_default(vars.chain_id, 1u64),
            env.dao_duration == dao_duration_for(env.production),
            env.jwt_secret == vars.jwt_secret,
            env.database_url == vars.database_url,
            env.aws_access_key_id == vars.aws_access_key_id,
            env.aws_secret_access_key == vars.aws_secret_access_key,
            env.aws_bucket_name == vars.aws_bucket_name,
            env.email_region == vars.email_region,
            env.frontend_url == vars.frontend_url,
            env.vapid_private_pem == vars.vapid_private_pem,
            env.ai_backend_url == vars.ai_backend_url,
            env.google_map_api_key == vars.google_map_api_key,
            env.evm_job_schedule == vars.evm_job_schedule,
            env.dao_contract_address == vars.dao_contract_address,
            env.rpc_url == vars.rpc_url,
            env.wallet_private_key == vars.wallet_private_key,
    {
        let production = match vars.production {
            Some(p) => p,
            None => false,
        };
        Env {
            port: match vars.port {
                Some(p) => p,
                None => 8000,
            },
            jwt_secret: vars.jwt_secret,
            jwt_ttl_in_minutes: match vars.jwt_ttl_in_minutes {
                Some(t) => t,
                None => 30,
            },
            database_url: vars.database_url,
            database_max_connections: match vars.database_max_connections {
                Some(c) => c,
                None => 10,
            },
            aws_access_key_id: vars.aws_access_key_id,
            aws_secret_access_key: vars.aws_secret_access_key,
            aws_bucket_name: vars.aws_bucket_name,
            email_verify_exp_second: match vars.email_verify_exp_second {
                Some(s) => s,
                None => 100,
            },
            email_verify_limit: match vars.email_verify_limit {
                Some(l) => l,
                None => 5,
            },
            email_region: vars.email_region,
            frontend_url: vars.frontend_url,
            vapid_private_pem: vars.vapid_private_pem,
            production,
            ai_backend_url: vars.ai_backend_url,
            google_map_api_key: vars.google_map_api_key,
            evm_job_schedule: vars.evm_job_schedule,
            dao_contract_address: vars.dao_contract_address,
            rpc_url: vars.rpc_url,
            chain_id: match vars.chain_id {
                Some(c) => c,
                None => 1,
            },
            wallet_private_key: vars.wallet_private_key,
            dao_duration: dao_duration_seconds(production),
        }
    }

    /// A fresh six-digit passkey for e-mail verification.
    pub fn generate_passkey(&self) -> (passkey: u32)
        ensures
            100_000 <= passkey <= 999_999,
    {
        crate::commons::generate_random_number(100_000, 999_999)
    }
}

/// The settings as the environment gives them: the optional ones as text where the
/// variable is set, the required ones as text.
pub struct EnvTexts {
    pub port: Option<String>,
    pub jwt_secret: String,
    pub jwt_ttl_in_minutes: Option<String>,
    pub database_url: String,
    pub database_max_connections: Option<String>,
    pub aws_access_key_id: String,
    pub aws_secret_access_key: String,
    pub aws_bucket_name: String,
    pub email_verify_exp_second: Option<String>,
    pub email_verify_limit: Option<String>,
    pub email_region: String,
    pub frontend_url: String,
    pub vapid_private_pem: String,
    pub production: Option<String>,
    pub ai_backend_url: String,
    pub google_map_api_key: String,
    pub evm_job_schedule: String,
    pub dao_contract_address: String,
    pub rpc_url: String,
    pub chain_id: Option<String>,
    pub wallet_private_key: String,
}

/// An optional text read with a parser: none where the text is missing or does not
/// parse.
pub open spec fn read_with<T>(text: Option<String>, parsed: spec_fn(Seq<char>) -> Option<T>) -> Option<T> {
    match text {
        Some(t) => parsed(t@),
        None => None,
    }
}

fn read_u32(text: &Option<String>) -> (r: Option<u32>)
    ensures
        r == read_with(*text, |t: Seq<char>| parsed_u32(t)),
{
    match text {
        Some(t) => parse_u32(t.as_str()),
        None => None,
    }
}

fn read_i64(text: &Option<String>) -> (r: Option<i64>)
    ensures
        r == read_with(*text, |t: Seq<char>| parsed_i64(t)),
{
    match text {
        Some(t) => parse_i64(t.as_str()),
        None => None,
    }
}

fn read_i16(text: &Option<String>) -> (r: Option<i16>)
    ensures
        r == read_with(*text, |t: Seq<char>| parsed_i16(t)),
{
    match text {
        Some(t) => parse_i16(t.as_str()),
        None => None,
    }
}

fn read_u64(text: &Option<String>) -> (r: Option<u64>)
    ensures
        r == read_with(*text, |t: Seq<char>| parsed_u64_value(t)),
{
    match text {
        Some(t) => parse_u64(t.as_str()),
        None => None,
    }
}

fn read_bool(text: &Option<String>) -> (r: Option<bool>)
    ensures
        r == read_with(*text, |t: Seq<char>| parsed_bool(t)),
{
    match text {
        Some(t) => parse_bool(t.as_str()),
        None => None,
    }
}

impl Env {
    /// The settings made of the variables as the environment gives them: each optional
    /// one is read as its type and falls back to its default where it is missing or does
    /// not parse.
    pub fn from_texts(texts: EnvTexts) -> (env: Env)
        ensures
            env.port == or_default(read_with(texts.port, |t: Seq<char>| parsed_u32(t)), 8000u32),
            env.jwt_ttl_in_minutes == or_default(read_with(texts.jwt_ttl_in_minutes, |t: Seq<char>| parsed_i64(t)), 30i64),
            env.database_max_connections == or_default(
                read_with(texts.database_max_connections, |t: Seq<char>| parsed_u32(t)),
                10u32,
            ),
            env.email_verify_exp_second == or_default(
                read_with(texts.email_verify_exp_second, |t: Seq<char>| parsed_i64(t)),
                100i64,
            ),
            env.email_verify_limit == or_default(read_with(texts.email_verify_limit, |t: Seq<char>| parsed_i16(t)), 5i16),
            env.production == or_default(read_with(texts.production, |t: Seq<char>| parsed_bool(t)), false),
            env.chain_id == or_default(read_with(texts.chain_id, |t: Seq<char>| parsed_u64_value(t)), 1u64),
            env.dao_duration == dao_duration_for(env.production),
            env.jwt_secret == texts.jwt_secret,
            env.database_url == texts.database_url,
            env.aws_access_key_id == texts.aws_access_key_id,
            env.aws_secret_access_key == texts.aws_secret_access_key,
            env.aws_bucket_name == texts.aws_bucket_name,
            env.email_region == texts.email_region,
            env.frontend_url == texts.frontend_url,
            env.vapid_private_pem == texts.vapid_private_pem,
            env.ai_backend_url == texts.ai_backend_url,
            env.google_map_api_key == texts.google_map_api_key,
            env.evm_job_schedule == texts.evm_job_schedule,
            env.dao_contract_address == texts.dao_contract_address,
            env.rpc_url == texts.rpc_url,
            env.wallet_private_key == texts.wallet_private_key,
    {
        let vars = EnvVars {
            port: read_u32(&texts.port),
            jwt_ttl_in_minutes: read_i64(&texts.jwt_ttl_in_minutes),
            database_max_connections: read_u32(&texts.database_max_connections),
            email_verify_exp_second: read_i64(&texts.email_verify_exp_second),
            email_verify_limit: read_i16(&texts.email_verify_limit),
            production: read_bool(&texts.production),
            chain_id: read_u64(&texts.chain_id),
            jwt_secret: texts.jwt_secret,
            database_url: texts.database_url,
            aws_access_key_id: texts.aws_access_key_id,
            aws_secret_access_key: texts.aws_secret_access_key,
            aws_bucket_name: texts.aws_bucket_name,
            email_region: texts.email_region,
            frontend_url: texts.frontend_url,
            vapid_private_pem: texts.vapid_private_pem,
            ai_backend_url: texts.ai_backend_url,
            google_map_api_key: texts.google_map_api_key,
            evm_job_schedule: texts.evm_job_schedule,
            dao_contract_address: texts.dao_contract_address,
            rpc_url: texts.rpc_url,
            wallet_private_key: texts.wallet_private_key,
        };
        Env::from_vars(vars)
    }
}

} // verus!
