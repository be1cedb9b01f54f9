//! The DAO votes on projects.

use vstd::prelude::*;

verus! {

/// The DAO vote on a project. Its status: 0 active, 1 passed, 2 failed.
#[derive(Debug, Clone)]
pub struct Dao {
    pub id: u128,
    pub project_id: u128,
    pub nerd_id: String,
    pub proposal_id: i64,
    pub user_id: u128,
    pub status: i16,
    pub title: String,
    pub description: String,
    pub details: Option<String>,
    pub funding_goal: i32,
    pub count_for: i32,
    pub count_against: i32,
    pub count_total: i32,
    pub amount_for: i32,
    pub amount_against: i32,
    pub amount_total: i32,
    pub cover_photo: Option<String>,
    pub created_at: i64,
    pub updated_at: i64,
}

/// A DAO whose vote has run its time.
#[derive(Debug, Clone)]
pub struct CompletedDao {
    pub id: u128,
    pub proposal_id: i64,
    pub created_at: i64,
}

} // verus!
