//! Hashtags.

use vstd::prelude::*;

verus! {

/// A hashtag as stored.
#[derive(Debug, Clone)]
pub struct HashTags {
    pub id: u128,
    pub hashtag_name: String,
    pub user_id: Option<u128>,
    pub is_available: bool,
    pub usage_count: i64,
    pub created_at: i64,
    pub updated_at: i64,
}

/// What is shown of a hashtag.
#[derive(Debug, Clone)]
pub struct HashTagsInfo {
    pub id: u128,
    pub hashtag_name: String,
}

} // verus!
