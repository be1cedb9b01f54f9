//! Request and response records of the HTTP endpoints.

pub mod admin_dto;
pub mod bounty_dto;
pub mod project_dto;
pub mod user_dto;
pub mod util_dto;
