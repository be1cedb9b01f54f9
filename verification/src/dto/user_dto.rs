//! Requests and responses of the account and settings endpoints.

use vstd::prelude::*;
use crate::calendar::{timestamp_text, utc_timestamp_text};
use crate::models::{string_or_default, text_or_empty, User};

verus! {

/// A sign-in with email and password.
#[derive(Debug, Clone)]
pub struct UserLoginWithEmailRequest {
    pub email: String,
    pub password: String,
}

/// A sign-in with Google.
#[derive(Debug, Clone)]
pub struct UserLoginWithGoogleRequest {
    pub access_token: String,
}

/// A sign-in with Apple.
#[derive(Debug, Clone)]
pub struct UserLoginWithAppleRequest {
    pub authorization_code: String,
}

/// An email address to check.
#[derive(Debug, Clone)]
pub struct UserCheckEmailOption {
    pub email: Option<String>,
}

impl Default for UserCheckEmailOption {
    fn default() -> (r: Self)
        ensures
            r.email is None,
    {
        UserCheckEmailOption {
            email: None,
        }
    }
}

/// Whether a name or an address is still available.
#[derive(Debug, Clone)]
pub struct UserCheckResponse {
    pub is_available: bool,
}

/// A sign-up with name, email and password.
#[derive(Debug, Clone)]
pub struct UserRegisterWithEmailRequest {
    pub name: String,
    pub email: String,
    pub password: String,
}

/// Filters and page of the editor list.
#[derive(Debug, Clone)]
pub struct GetEditorsOption {
    pub offset: Option<i32>,
    pub limit: Option<i32>,
}

/// What a new user tells about themselves.
#[derive(Debug, Clone)]
pub struct UserOnboardingRequest {
    pub name: String,
    pub institution: String,
    pub bio: String,
    pub roles: Vec<String>,
    pub interests: Vec<String>,
    pub wallet_address: Option<String>,
}

/// A request for another verification email.
#[derive(Debug, Clone)]
pub struct ResendVerificationEmailRequest {
    pub email: String,
}

/// The answer to an email verification.
#[derive(Debug, Clone)]
pub struct EmailVerificationResponse {
    pub is_sent: bool,
    pub iat: i64,
    pub exp: i64,
}

/// An email address with the code sent to it.
#[derive(Debug, Clone)]
pub struct VerifyEmailRequest {
    pub email: String,
    pub verification_code: Option<String>,
}

/// The role a user switches to.
#[derive(Debug, Clone)]
pub struct ChangeRoleRequest {
    pub role: String,
}

/// The profile settings a user changes.
#[derive(Debug, Clone)]
pub struct UserProfileSettingsRequest {
    pub avatar_url: Option<String>,
    pub email: String,
    pub name: Option<String>,
    pub institution: Option<String>,
    pub bio: Option<String>,
    pub website: Option<String>,
    pub roles: Vec<String>,
}

/// The notification settings a user changes.
#[derive(Debug, Clone)]
pub struct UserNotificationSettingsRequest {
    pub email_notifications: bool,
    pub push_notifications: bool,
    pub milestone_updates: bool,
    pub funding_updates: bool,
    pub dao_proposals: bool,
    pub prediction_markets: bool,
}

/// A user's notification settings.
#[derive(Debug, Clone)]
pub struct UserNotificationSettingsResponse {
    pub email_notifications: bool,
    pub push_notifications: bool,
    pub milestone_updates: bool,
    pub funding_updates: bool,
    pub dao_proposals: bool,
    pub prediction_markets: bool,
}

/// The privacy settings a user changes.
#[derive(Debug, Clone)]
pub struct UserPrivacySettingsRequest {
    pub profile_visibility: bool,
    pub show_funding_history: bool,
    pub show_prediction_history: bool,
    pub two_factor_enabled: bool,
}

/// A user's privacy settings.
#[derive(Debug, Clone)]
pub struct UserPrivacySettingsResponse {
    pub profile_visibility: bool,
    pub show_funding_history: bool,
    pub show_prediction_history: bool,
    pub two_factor_enabled: bool,
}

/// The wallet a user sets.
#[derive(Debug, Clone)]
pub struct UserWalletSettingsRequest {
    pub wallet_address: Option<String>,
}

/// A user's wallet.
#[derive(Debug, Clone)]
pub struct UserWalletSettingsResponse {
    pub wallet_address: Option<String>,
}

/// The display preferences a user changes.
#[derive(Debug, Clone)]
pub struct UserPreferencesSettingsRequest {
    pub dark_mode: bool,
    pub language: String,
    pub timezone: String,
    pub display_currency: String,
}

/// A user's display preferences.
#[derive(Debug, Clone)]
pub struct UserPreferencesSettingsResponse {
    pub dark_mode: bool,
    pub language: String,
    pub timezone: String,
    pub display_currency: String,
}
/// What a signed-in user sees of their own account.
#[derive(Debug, Clone)]
pub struct UserReadDto {
    pub id: u128,
    pub username: String,
    pub name: String,
    pub email: String,
    pub roles: Vec<String>,
    pub institution: String,
    pub interests: Vec<String>,
    pub avatar_url: Option<String>,
    pub bio: Option<String>,
    pub tier: String,
    pub nerd_balance: i64,
    pub wallet_address: Option<String>,
    pub created_at: String,
    pub updated_at: String,
}

/// The text of a stored time: how chrono writes it, empty for a time that chrono cannot
/// hold.
pub open spec fn time_text(millis: i64) -> Seq<char> {
    match utc_timestamp_text(millis) {
        Some(t) => t,
        None => Seq::empty(),
    }
}

fn time_string(millis: i64) -> (s: String)
    ensures
        s@ == time_text(millis),
{
    match timestamp_text(millis) {
        Some(t) => t,
        None => String::new(),
    }
}

impl UserReadDto {
    /// What the user sees of their account: missing username, name and institution read
    /// as empty, and the times written as chrono writes UTC times.
    pub fn from(model: User) -> (dto: UserReadDto)
        ensures
            dto.id == model.id,
            dto.username@ == text_or_empty(model.username),
            dto.name@ == text_or_empty(model.name),
            dto.email == model.email,
            dto.roles == model.roles,
            dto.institution@ == text_or_empty(model.institution),
            dto.interests == model.interests,
            dto.avatar_url == model.avatar_url,
            dto.bio == model.bio,
            dto.tier == model.tier,
            dto.nerd_balance == model.nerd_balance,
            dto.wallet_address == model.wallet_address,
            dto.created_at@ == time_text(model.created_at),
            dto.updated_at@ == time_text(model.updated_at),
    {
        UserReadDto {
            id: model.id,
            username: string_or_default(&model.username),
            name: string_or_default(&model.name),
            email: model.email,
            roles: model.roles,
            avatar_url: model.avatar_url,
            institution: string_or_default(&model.institution),
            interests: model.interests,
            bio: model.bio,
            tier: model.tier,
            nerd_balance: model.nerd_balance,
            wallet_address: model.wallet_address,
            created_at: time_string(model.created_at),
            updated_at: time_string(model.updated_at),
        }
    }
}

/// The answer to a sign-in or sign-up: the account and its token.
#[derive(Debug, Clone)]
pub struct LoginAndRegisterResponse {
    pub user: UserReadDto,
    pub token: String,
}

} // verus!
