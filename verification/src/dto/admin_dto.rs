//! Options of the admin dashboard.

use vstd::prelude::*;

verus! {

/// Filters of the admin dashboard's user list.
#[derive(Debug, Clone)]
pub struct GetUsersOnDashboardOption {
    pub tab: Option<u16>,
    pub name: Option<String>,
    pub user_name: Option<String>,
    pub noble_id: Option<String>,
    pub email: Option<String>,
    pub status: Option<bool>,
    pub start: Option<i32>,
    pub limit: Option<i32>,
}

impl Default for GetUsersOnDashboardOption {
    fn default() -> (r: Self)
        ensures
            r.tab is None,
            r.name is None,
            r.user_name is None,
            r.noble_id is None,
            r.email is None,
            r.status is None,
            r.start is None,
            r.limit is None,
    {
        GetUsersOnDashboardOption {
            tab: None,
            name: None,
            user_name: None,
            noble_id: None,
            email: None,
            status: None,
            start: None,
            limit: None,
        }
    }
}

/// A page of a list: where it starts and how many items it holds.
#[derive(Debug, Clone)]
pub struct StartLimitOption {
    pub start: Option<i32>,
    pub limit: Option<i32>,
}

impl Default for StartLimitOption {
    fn default() -> (r: Self)
        ensures
            r.start is None,
            r.limit is None,
    {
        StartLimitOption {
            start: None,
            limit: None,
        }
    }
}
} // verus!
