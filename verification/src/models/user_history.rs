//! What users liked and bookmarked.

use vstd::prelude::*;

verus! {

/// What a user liked and bookmarked.
#[derive(Debug, Clone)]
pub struct UserHistory {
    pub id: u128,
    pub user_id: u128,
    pub liked_posts: Option<Vec<u128>>,
    pub liked_post_comments: Option<Vec<u128>>,
    pub bookmark_posts: Option<Vec<u128>>,
    pub created_at: Option<i64>,
    pub updated_at: Option<i64>,
}

} // verus!
