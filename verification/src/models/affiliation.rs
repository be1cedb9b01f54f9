//! Users' affiliations.

use vstd::prelude::*;

verus! {

/// A user's affiliation with an institution.
#[derive(Debug, Clone)]
pub struct Affiliation {
    pub id: u128,
    pub user_id: u128,
    pub title: Option<String>,
    pub institution: Option<String>,
    pub department: Option<String>,
    pub is_current: Option<bool>,
    pub institution_address: Option<String>,
    pub line_2: Option<String>,
    pub line_3: Option<String>,
    pub country: Option<String>,
    pub city: Option<String>,
    pub postal_code: Option<String>,
    pub work_phone_number: Option<String>,
    pub domain_expertise: Option<Vec<String>>,
    pub years: Option<i32>,
    pub numbers: Option<i32>,
    pub journals: Option<Vec<String>>,
    pub publications: Option<Vec<String>>,
    pub created_at: Option<i64>,
    pub updated_at: Option<i64>,
}

} // verus!
