//! Stored records that the services decide on: users, project milestones and editors.
//! Identifiers are UUIDs as their 128-bit values; times are milliseconds since the Unix
//! epoch.

pub mod affiliation;
pub mod bounty;
pub mod dao;
pub mod degree;
pub mod hashtags;
pub mod prediction;
pub mod prediction_placement;
pub mod project;
pub mod temp_user;
pub mod user_history;
pub mod wallpaper;

use vstd::prelude::*;

verus! {

/// A stored user.
#[derive(Debug, Clone)]
pub struct User {
    pub id: u128,
    pub username: Option<String>,
    pub name: Option<String>,
    pub password: Option<String>,
    pub email: String,
    pub verified_email: bool,
    pub gmail: Option<String>,
    pub roles: Vec<String>,
    pub institution: Option<String>,
    pub interests: Vec<String>,
    pub avatar_url: Option<String>,
    pub bio: Option<String>,
    pub tier: String,
    pub nerd_balance: i64,
    pub wallet_address: Option<String>,
    pub created_at: i64,
    pub updated_at: i64,
}

/// What other users see of a user.
#[derive(Debug, Clone)]
pub struct UserInfo {
    pub id: u128,
    pub username: String,
    pub name: String,
    pub email: String,
    pub roles: Vec<String>,
    pub institution: String,
    pub interests: Vec<String>,
    pub avatar_url: Option<String>,
    pub wallet_address: Option<String>,
}

/// The text of an optional text, or the empty text.
pub open spec fn text_or_empty(t: Option<String>) -> Seq<char> {
    match t {
        Some(s) => s@,
        None => Seq::empty(),
    }
}

/// The optional text copied, or the empty text (`unwrap_or_default`).
pub fn string_or_default(t: &Option<String>) -> (s: String)
    ensures
        s@ == text_or_empty(*t),
{
    match t {
        Some(s) => s.clone(),
        None => String::new(),
    }
}

pub(crate) fn clone_strings(v: &Vec<String>) -> (c: Vec<String>)
    ensures
        c@.len() == v@.len(),
        forall|i: int| 0 <= i < v@.len() ==> (#[trigger] c@[i])@ == v@[i]@,
{
    let mut c: Vec<String> = Vec::new();
    let mut i: usize = 0;
    while i < v.len()
        invariant
            i <= v@.len(),
            c@.len() == i,
            forall|j: int| 0 <= j < i ==> (#[trigger] c@[j])@ == v@[j]@,
        decreases v.len() - i,
    {
        c.push(v[i].clone());
        i = i + 1;
    }
    c
}

pub(crate) fn clone_optional(t: &Option<String>) -> (c: Option<String>)
    ensures
        c is Some <==> t is Some,
        c is Some ==> c->0@ == t->0@,
{
    match t {
        Some(s) => Some(s.clone()),
        None => None,
    }
}

/// Whether two lists of texts hold the same texts in the same order.
pub open spec fn same_texts(a: Seq<String>, b: Seq<String>) -> bool {
    a.len() == b.len() && forall|i: int| 0 <= i < a.len() ==> (#[trigger] a[i])@ == b[i]@
}

/// Whether two optional texts are both absent or hold the same text.
pub open spec fn same_optional_text(a: Option<String>, b: Option<String>) -> bool {
    (a is Some <==> b is Some) && (a is Some ==> a->0@ == b->0@)
}

impl User {
    /// What other users see of the user: missing username, name and institution read
    /// as empty.
    pub fn to_info(&self) -> (info: UserInfo)
        ensures
            info.id == self.id,
            info.username@ == text_or_empty(self.username),
            info.name@ == text_or_empty(self.name),
            info.email@ == self.email@,
            same_texts(info.roles@, self.roles@),
            info.institution@ == text_or_empty(self.institution),
            same_texts(info.interests@, self.interests@),
            same_optional_text(info.avatar_url, self.avatar_url),
            same_optional_text(info.wallet_address, self.wallet_address),
    {
        UserInfo {
            id: self.id,
            username: string_or_default(&self.username),
            name: string_or_default(&self.name),
            email: self.email.clone(),
            roles: clone_strings(&self.roles),
            institution: string_or_default(&self.institution),
            interests: clone_strings(&self.interests),
            avatar_url: clone_optional(&self.avatar_url),
            wallet_address: clone_optional(&self.wallet_address),
        }
    }
}

/// A milestone of a project, with its funding and its schedule after the start.
#[derive(Debug, Clone)]
pub struct Milestone {
    pub id: u128,
    pub project_id: u128,
    /// 0: pending, 1: in progress, 2: success, 3: given up, 4: failed.
    pub status: i16,
    pub number: i16,
    pub title: String,
    pub description: String,
    pub deliverables: Option<String>,
    pub challenges: Option<String>,
    pub next_steps: Option<String>,
    pub file_urls: Vec<String>,
    /// 0: empty, 1: submitted, 2: approved, 3: rejected.
    pub proof_status: i16,
    pub funding_amount: i32,
    pub days_after_start: i32,
    pub days_of_prediction: i32,
    pub created_at: i64,
    pub updated_at: i64,
}

/// An editor assigned to review a project, with the editor's verdict.
#[derive(Debug, Clone)]
pub struct ProjectEditor {
    pub id: u128,
    pub project_id: String,
    pub nerd_id: String,
    pub user_id: u128,
    /// A `FeedbackStatus` code.
    pub status: i16,
    pub feedback: Option<String>,
    pub created_at: i64,
    pub updated_at: i64,
}

/// What is shown of a project's editor.
#[derive(Debug, Clone)]
pub struct ProjectEditorInfo {
    pub id: u128,
    pub user: UserInfo,
    pub status: i16,
    pub feedback: Option<String>,
    pub created_at: i64,
    pub updated_at: i64,
}

impl ProjectEditor {
    /// What is shown of the editor; the written feedback only in the full view.
    pub fn to_info(&self, is_full: bool, user: UserInfo) -> (info: ProjectEditorInfo)
        ensures
            info.id == self.id,
            info.user == user,
            info.status == self.status,
            is_full ==> same_optional_text(info.feedback, self.feedback),
            !is_full ==> info.feedback is None,
            info.created_at == self.created_at,
            info.updated_at == self.updated_at,
    {
        ProjectEditorInfo {
            id: self.id,
            user,
            status: self.status,
            feedback: if is_full {
                clone_optional(&self.feedback)
            } else {
                None
            },
            created_at: self.created_at,
            updated_at: self.updated_at,
        }
    }
}

} // verus!
