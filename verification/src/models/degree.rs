//! Academic degrees.

use vstd::prelude::*;

verus! {

/// An academic degree.
#[derive(Debug, Clone)]
pub struct Degree {
    pub id: u128,
    pub degree_name: String,
    pub abbreviation: Option<String>,
    pub is_available: i16,
    pub created_at: i64,
    pub updated_at: i64,
}

} // verus!
