//! The listings that the repositories run: which conditions a request puts on the
//! projects, DAOs, bounties and predictions that it lists, and with which values.

use vstd::prelude::*;
use crate::bounty::{bounty_difficulty_code, bounty_status_code, BountyDifficulty, BountyStatus};
use crate::env::or_default;
use crate::models::{text_or_empty, User};
use crate::prediction::{prediction_status_code, PredictionStatus};
use crate::ids::count_char;
use crate::query::{
    all_plain, clause_views, lemma_all_plain_concat, lemma_decimal_plain, lemma_listing_placeholders,
    lemma_literal_plain, lemma_no_dollar_concat, listing_sql, no_dollar, render_clauses, render_listing, values_of,
    Clause, ClauseSpec, SqlParam, SqlQuery, SqlValue,
};
use crate::repository::{BountyRepository, PredictionRepository, ProjectRepository};
use crate::text::{append_decimal, append_str, decimal, push_char, str_eq};
use crate::types::{project_status_code, project_status_of, user_role_name, ProjectStatus, UserRoleType};

verus! {

/// The text of an optional text, where there is one.
pub open spec fn text_opt(t: Option<String>) -> Option<Seq<char>> {
    match t {
        Some(s) => Some(s@),
        None => None,
    }
}

/// Whether the query is the listing with the given select, conditions and ordering, and
/// the given page.
pub open spec fn is_listing(
    q: SqlQuery,
    select: Seq<char>,
    clauses: Seq<ClauseSpec>,
    order: Seq<char>,
    limit: i32,
    offset: i32,
) -> bool {
    &&& q.sql@ == listing_sql(select, render_clauses(clauses, limit, offset), order)
    &&& values_of(q.params@) == render_clauses(clauses, limit, offset).values
}

/// The pattern that matches texts containing `t`.
pub open spec fn like_pattern(t: Seq<char>) -> Seq<char> {
    seq!['%'] + t + seq!['%']
}

/// The condition on a title that a listing has where the request names a title that is
/// not empty.
pub open spec fn title_clauses(title: Option<Seq<char>>, column: Seq<char>) -> Seq<ClauseSpec> {
    match title {
        Some(t) => if t.len() > 0 {
            seq![ClauseSpec::WhereBound(column, Seq::empty(), SqlValue::Text(like_pattern(t)))]
        } else {
            Seq::empty()
        },
        None => Seq::empty(),
    }
}

/// A condition with its value after the fixed text.
pub open spec fn bound_after(text: Seq<char>, v: SqlValue) -> ClauseSpec {
    ClauseSpec::WhereBound(text, Seq::empty(), v)
}

/// The condition on a stored status code, where the request names one.
pub open spec fn status_clauses(status: Option<i16>, text: Seq<char>) -> Seq<ClauseSpec> {
    match status {
        Some(s) => seq![bound_after(text, SqlValue::SmallInt(s))],
        None => Seq::empty(),
    }
}

/// The condition that a listed item belongs to the category, where the request names one.
pub open spec fn any_category_clauses(category_id: Option<u128>) -> Seq<ClauseSpec> {
    match category_id {
        Some(c) => seq![ClauseSpec::WhereBound(Seq::empty(), " = ANY(p.category)"@, SqlValue::Id(c))],
        None => Seq::empty(),
    }
}

/// The columns that a project listing selects.
pub open spec fn project_select() -> Seq<char> {
    "SELECT p.id, p.nerd_id, p.proposal_id, p.user_id, p.title, p.description, p.cover_photo, p.category, p.status, p.funding_goal, p.duration, p.tags, p.arweave_tx_id, p.funding_amount, p.count_contributors, p.created_at, p.updated_at, p.dao_at, p.started_at FROM project p"@
}

/// The public projects: those being funded or completed.
pub open spec fn public_projects_text() -> Seq<char> {
    "(p.status = "@ + decimal(project_status_code(ProjectStatus::Funding) as int) + " OR p.status = "@
        + decimal(project_status_code(ProjectStatus::Completed) as int) + ")"@
}

/// What an editor sees of the projects assigned to them: those under review where
/// the request asks for that status, else those past review.
pub open spec fn editor_status_clauses(status: Option<i16>) -> Seq<ClauseSpec> {
    match status {
        Some(s) => if project_status_of(s) == ProjectStatus::UnderReview {
            seq![ClauseSpec::Where("p.status = "@ + decimal(project_status_code(ProjectStatus::UnderReview) as int))]
        } else {
            seq![ClauseSpec::Where("p.status > "@ + decimal(project_status_code(ProjectStatus::UnderReview) as int))]
        },
        None => Seq::empty(),
    }
}

/// The conditions on the projects that a request lists, or `None` where it lists none:
/// the caller's own projects (`is_mine`, which needs a user), else the public ones
/// (`is_public`), else what the caller's role may see: an admin every project past
/// creation, an editor those assigned to them (which needs a user), anyone else all.
pub open spec fn project_listing_clauses(
    title: Option<Seq<char>>,
    status: Option<i16>,
    category_id: Option<u128>,
    role: Option<Seq<char>>,
    user_id: Option<u128>,
    is_mine: bool,
    is_public: bool,
) -> Option<Seq<ClauseSpec>> {
    let middle: Option<Seq<ClauseSpec>> = if is_mine {
        match user_id {
            Some(u) => Some(
                seq![bound_after("p.user_id = "@, SqlValue::Id(u))] + status_clauses(status, "p.status = "@),
            ),
            None => None,
        }
    } else if is_public {
        match status {
            Some(s) => Some(status_clauses(status, "p.status = "@)),
            None => Some(seq![ClauseSpec::Where(public_projects_text())]),
        }
    } else if role == Some(user_role_name(UserRoleType::Admin)) {
        match status {
            Some(s) => Some(status_clauses(status, "p.status = "@)),
            None => Some(
                seq![ClauseSpec::Where("p.status != "@ + decimal(project_status_code(ProjectStatus::Creating) as int))],
            ),
        }
    } else if role == Some(user_role_name(UserRoleType::Editor)) {
        match user_id {
            Some(u) => Some(
                seq![ClauseSpec::JoinBound(
                    " JOIN project_editor pe ON p.id = pe.project_id AND pe.user_id = "@,
                    " "@,
                    SqlValue::Id(u),
                )] + editor_status_clauses(status),
            ),
            None => None,
        }
    } else {
        Some(Seq::empty())
    };
    match middle {
        Some(m) => Some(title_clauses(title, "p.title ILIKE "@) + m + any_category_clauses(category_id)),
        None => None,
    }
}

fn like_param(t: &String) -> (p: SqlParam)
    ensures
        p@ == SqlValue::Text(like_pattern(t@)),
{
    let mut s = String::new();
    push_char(&mut s, '%');
    append_str(&mut s, t.as_str());
    push_char(&mut s, '%');
    assert(s@ =~= like_pattern(t@));
    SqlParam::Text(s)
}

fn push_clause(clauses: &mut Vec<Clause>, c: Clause)
    ensures
        clause_views(final(clauses)@) == clause_views(old(clauses)@).push(c@),
{
    clauses.push(c);
    assert(clause_views(clauses@) =~= clause_views(old(clauses)@).push(c@));
}

fn push_title(clauses: &mut Vec<Clause>, title: &Option<String>, column: &str)
    ensures
        clause_views(final(clauses)@) == clause_views(old(clauses)@) + title_clauses(text_opt(*title), column@),
{
    match title {
        Some(t) => {
            if t.unicode_len() > 0 {
                push_clause(clauses, Clause::WhereBound(String::from_str(column), String::new(), like_param(t)));
            }
        },
        None => {},
    }
    assert(clause_views(clauses@) =~= clause_views(old(clauses)@) + title_clauses(text_opt(*title), column@));
}

fn push_bound_after(clauses: &mut Vec<Clause>, text: &str, p: SqlParam)
    ensures
        clause_views(final(clauses)@) == clause_views(old(clauses)@).push(bound_after(text@, p@)),
{
    push_clause(clauses, Clause::WhereBound(String::from_str(text), String::new(), p));
}

fn push_status(clauses: &mut Vec<Clause>, status: Option<i16>, text: &str)
    ensures
        clause_views(final(clauses)@) == clause_views(old(clauses)@) + status_clauses(status, text@),
{
    if let Some(s) = status {
        push_bound_after(clauses, text, SqlParam::SmallInt(s));
    }
    assert(clause_views(clauses@) =~= clause_views(old(clauses)@) + status_clauses(status, text@));
}

fn push_any_category(clauses: &mut Vec<Clause>, category_id: Option<u128>)
    ensures
        clause_views(final(clauses)@) == clause_views(old(clauses)@) + any_category_clauses(category_id),
{
    if let Some(c) = category_id {
        push_clause(clauses, Clause::WhereBound(String::new(), String::from_str(" = ANY(p.category)"), SqlParam::Id(c)));
    }
    assert(clause_views(clauses@) =~= clause_views(old(clauses)@) + any_category_clauses(category_id));
}

fn status_condition(text: &str, status: ProjectStatus) -> (c: String)
    ensures
        c@ == text@ + decimal(project_status_code(status) as int),
{
    let mut c = String::from_str(text);
    append_decimal(&mut c, status.to_i16() as i64);
    c
}

/// Whether the optional text is the name of the role.
fn is_role(role: &Option<String>, which: UserRoleType) -> (r: bool)
    ensures
        r == (text_opt(*role) == Some(user_role_name(which))),
{
    match role {
        Some(r) => {
            let name = which.to_string();
            str_eq(r.as_str(), name.as_str())
        },
        None => false,
    }
}

impl ProjectRepository {
    /// The listing of projects for a request, newest update first, or `None` where the
    /// request lists no project (`is_mine` without a user, or an editor without a user).
    /// Without a page size, five projects are listed; without an offset, from the first.
    pub fn projects_query(
        title: &Option<String>,
        status: Option<i16>,
        category_id: Option<u128>,
        role: &Option<String>,
        user_id: Option<u128>,
        is_mine: Option<bool>,
        is_public: Option<bool>,
        offset: Option<i32>,
        limit: Option<i32>,
    ) -> (q: Option<SqlQuery>)
        ensures
            match project_listing_clauses(
                text_opt(*title),
                status,
                category_id,
                text_opt(*role),
                user_id,
                or_default(is_mine, false),
                or_default(is_public, false),
            ) {
                Some(c) => q matches Some(q) && is_listing(
                    q,
                    project_select(),
                    c,
                    " ORDER BY p.updated_at DESC"@,
                    or_default(limit, 5),
                    or_default(offset, 0),
                ),
                None => q is None,
            },
    {
        let mut clauses: Vec<Clause> = Vec::new();
        push_title(&mut clauses, title, "p.title ILIKE ");
        let ghost head = clause_views(clauses@);
        if is_mine.unwrap_or(false) {
            match user_id {
                Some(u) => {
                    push_bound_after(&mut clauses, "p.user_id = ", SqlParam::Id(u));
                    push_status(&mut clauses, status, "p.status = ");
                },
                None => {
                    return None;
                },
            }
        } else if is_public.unwrap_or(false) {
            if status.is_some() {
                push_status(&mut clauses, status, "p.status = ");
            } else {
                let mut f = status_condition("(p.status = ", ProjectStatus::Funding);
                append_str(&mut f, " OR p.status = ");
                append_decimal(&mut f, ProjectStatus::Completed.to_i16() as i64);
                append_str(&mut f, ")");
                assert(f@ =~= public_projects_text());
                push_clause(&mut clauses, Clause::Where(f));
            }
        } else if is_role(role, UserRoleType::Admin) {
            if status.is_some() {
                push_status(&mut clauses, status, "p.status = ");
            } else {
                push_clause(&mut clauses, Clause::Where(status_condition("p.status != ", ProjectStatus::Creating)));
            }
        } else if is_role(role, UserRoleType::Editor) {
            match user_id {
                Some(u) => {
                    push_clause(
                        &mut clauses,
                        Clause::JoinBound(
                            String::from_str(" JOIN project_editor pe ON p.id = pe.project_id AND pe.user_id = "),
                            String::from_str(" "),
                            SqlParam::Id(u),
                        ),
                    );
                    if let Some(s) = status {
                        if ProjectStatus::from(s) == ProjectStatus::UnderReview {
                            push_clause(&mut clauses, Clause::Where(status_condition("p.status = ", ProjectStatus::UnderReview)));
                        } else {
                            push_clause(&mut clauses, Clause::Where(status_condition("p.status > ", ProjectStatus::UnderReview)));
                        }
                    }
                },
                None => {
                    return None;
                },
            }
        }
        let ghost mid = clause_views(clauses@);
        push_any_category(&mut clauses, category_id);
        let ghost expected = project_listing_clauses(
            text_opt(*title),
            status,
            category_id,
            text_opt(*role),
            user_id,
            or_default(is_mine, false),
            or_default(is_public, false),
        );
        assert(expected is Some);
        assert(mid =~= head + (mid.subrange(head.len() as int, mid.len() as int)));
        assert(clause_views(clauses@) =~= expected->0);
        Some(render_listing(
            "SELECT p.id, p.nerd_id, p.proposal_id, p.user_id, p.title, p.description, p.cover_photo, p.category, p.status, p.funding_goal, p.duration, p.tags, p.arweave_tx_id, p.funding_amount, p.count_contributors, p.created_at, p.updated_at, p.dao_at, p.started_at FROM project p",
            &clauses,
            " ORDER BY p.updated_at DESC",
            limit.unwrap_or(5),
            offset.unwrap_or(0),
        ))
    }
}

/// The conditions on the DAOs that a request lists, or `None` where it lists none: the
/// DAOs the caller voted in (`is_mine`, which needs a user), else those with the given
/// status, if any.
pub open spec fn dao_listing_clauses(
    title: Option<Seq<char>>,
    status: Option<i16>,
    user_id: Option<u128>,
    is_mine: bool,
) -> Option<Seq<ClauseSpec>> {
    if is_mine {
        match user_id {
            Some(u) => Some(
                title_clauses(title, "d.title ILIKE "@) + seq![ClauseSpec::JoinBound(
                    " JOIN dao_vote dv ON d.id = dv.dao_id AND dv.user_id = "@,
                    " "@,
                    SqlValue::Id(u),
                )],
            ),
            None => None,
        }
    } else {
        Some(title_clauses(title, "d.title ILIKE "@) + status_clauses(status, "d.status = "@))
    }
}

/// The stored code of an optional bounty status.
pub open spec fn bounty_status_opt(status: Option<BountyStatus>) -> Option<i16> {
    match status {
        Some(s) => Some(bounty_status_code(s)),
        None => None,
    }
}

/// The stored code of an optional bounty difficulty.
pub open spec fn bounty_difficulty_opt(difficulty: Option<BountyDifficulty>) -> Option<i16> {
    match difficulty {
        Some(d) => Some(bounty_difficulty_code(d)),
        None => None,
    }
}

/// The conditions on the bounties that a request lists, or `None` where it lists none:
/// a funder asking for their own bounties (`is_mine`) needs a user.
pub open spec fn bounty_listing_clauses(
    title: Option<Seq<char>>,
    status: Option<BountyStatus>,
    category_id: Option<u128>,
    difficulty: Option<BountyDifficulty>,
    role: Option<Seq<char>>,
    user_id: Option<u128>,
    is_mine: bool,
) -> Option<Seq<ClauseSpec>> {
    let common = title_clauses(title, "b.title ILIKE "@) + status_clauses(bounty_status_opt(status), "b.status = "@)
        + match category_id {
        Some(c) => seq![bound_after("b.category = "@, SqlValue::Id(c))],
        None => Seq::empty(),
    } + status_clauses(bounty_difficulty_opt(difficulty), "b.difficulty = "@);
    if or_default(role, Seq::empty()) == user_role_name(UserRoleType::Funder) && is_mine {
        match user_id {
            Some(u) => Some(common.push(bound_after("b.user_id = "@, SqlValue::Id(u)))),
            None => None,
        }
    } else {
        Some(common)
    }
}

/// The stored code of an optional prediction status.
pub open spec fn prediction_status_opt(status: Option<PredictionStatus>) -> Option<i16> {
    match status {
        Some(s) => Some(prediction_status_code(s)),
        None => None,
    }
}

/// The conditions on the predictions that a request lists: with `is_mine` and a user,
/// only those that the user's wallet placed.
pub open spec fn prediction_listing_clauses(
    title: Option<Seq<char>>,
    status: Option<PredictionStatus>,
    category_id: Option<u128>,
    wallet: Option<Seq<char>>,
    is_mine: bool,
) -> Seq<ClauseSpec> {
    let common = title_clauses(title, "p.title ILIKE "@) + status_clauses(prediction_status_opt(status), "p.status = "@)
        + any_category_clauses(category_id);
    match wallet {
        Some(w) => if is_mine {
            common.push(
                ClauseSpec::JoinBound(
                    " JOIN prediction_placement pp ON p.proposal_id = pp.proposal_id AND p.number = pp.milestone_index AND pp.user_address ILIKE "@,
                    " "@,
                    SqlValue::Text(w),
                ),
            )
        } else {
            common
        },
        None => common,
    }
}

impl ProjectRepository {
    /// The listing of DAOs for a request, newest update first, or `None` where the
    /// request lists none (`is_mine` without a user). Without a page size, five DAOs are
    /// listed; without an offset, from the first.
    pub fn daos_query(
        title: &Option<String>,
        status: Option<i16>,
        user_id: Option<u128>,
        is_mine: Option<bool>,
        offset: Option<i32>,
        limit: Option<i32>,
    ) -> (q: Option<SqlQuery>)
        ensures
            match dao_listing_clauses(text_opt(*title), status, user_id, or_default(is_mine, false)) {
                Some(c) => q matches Some(q) && is_listing(
                    q,
                    "SELECT d.* FROM dao d"@,
                    c,
                    " ORDER BY d.updated_at DESC"@,
                    or_default(limit, 5),
                    or_default(offset, 0),
                ),
                None => q is None,
            },
    {
        let mut clauses: Vec<Clause> = Vec::new();
        push_title(&mut clauses, title, "d.title ILIKE ");
        if is_mine.unwrap_or(false) {
            match user_id {
                Some(u) => {
                    push_clause(
                        &mut clauses,
                        Clause::JoinBound(
                            String::from_str(" JOIN dao_vote dv ON d.id = dv.dao_id AND dv.user_id = "),
                            String::from_str(" "),
                            SqlParam::Id(u),
                        ),
                    );
                },
                None => {
                    return None;
                },
            }
        } else {
            push_status(&mut clauses, status, "d.status = ");
        }
        let ghost expected = dao_listing_clauses(text_opt(*title), status, user_id, or_default(is_mine, false));
        assert(clause_views(clauses@) =~= expected->0);
        Some(render_listing(
            "SELECT d.* FROM dao d",
            &clauses,
            " ORDER BY d.updated_at DESC",
            limit.unwrap_or(5),
            offset.unwrap_or(0),
        ))
    }
}

impl BountyRepository {
    /// The listing of bounties for a request, newest update first, or `None` where the
    /// request lists none (a funder's own bounties without a user). Without a page size,
    /// five bounties are listed; without an offset, from the first.
    pub fn bounties_query(
        title: &Option<String>,
        status: Option<BountyStatus>,
        category_id: Option<u128>,
        difficulty: Option<BountyDifficulty>,
        role: &Option<String>,
        user_id: Option<u128>,
        is_mine: Option<bool>,
        offset: Option<i32>,
        limit: Option<i32>,
    ) -> (q: Option<SqlQuery>)
        ensures
            match bounty_listing_clauses(
                text_opt(*title),
                status,
                category_id,
                difficulty,
                text_opt(*role),
                user_id,
                or_default(is_mine, false),
            ) {
                Some(c) => q matches Some(q) && is_listing(
                    q,
                    "SELECT b.* FROM bounty b"@,
                    c,
                    " ORDER BY b.updated_at DESC"@,
                    or_default(limit, 5),
                    or_default(offset, 0),
                ),
                None => q is None,
            },
    {
        let mut clauses: Vec<Clause> = Vec::new();
        push_title(&mut clauses, title, "b.title ILIKE ");
        let status_code: Option<i16> = match status {
            Some(s) => Some(i16::from(s)),
            None => None,
        };
        push_status(&mut clauses, status_code, "b.status = ");
        if let Some(c) = category_id {
            push_bound_after(&mut clauses, "b.category = ", SqlParam::Id(c));
        }
        let difficulty_code: Option<i16> = match difficulty {
            Some(d) => Some(i16::from(d)),
            None => None,
        };
        push_status(&mut clauses, difficulty_code, "b.difficulty = ");
        let funder = UserRoleType::Funder.to_string();
        let is_funder = match role {
            Some(r) => str_eq(r.as_str(), funder.as_str()),
            None => {
                proof {
                    reveal_strlit("Funder");
                }
                false
            },
        };
        assert(is_funder == (or_default(text_opt(*role), Seq::empty()) == user_role_name(UserRoleType::Funder)));
        if is_funder && is_mine.unwrap_or(false) {
            match user_id {
                Some(u) => {
                    push_bound_after(&mut clauses, "b.user_id = ", SqlParam::Id(u));
                },
                None => {
                    return None;
                },
            }
        }
        let ghost expected = bounty_listing_clauses(
            text_opt(*title),
            status,
            category_id,
            difficulty,
            text_opt(*role),
            user_id,
            or_default(is_mine, false),
        );
        assert(clause_views(clauses@) =~= expected->0);
        Some(render_listing(
            "SELECT b.* FROM bounty b",
            &clauses,
            " ORDER BY b.updated_at DESC",
            limit.unwrap_or(5),
            offset.unwrap_or(0),
        ))
    }
}

impl PredictionRepository {
    /// The listing of predictions for a request, earliest first. With `is_mine` and a
    /// user, only those that the user's wallet placed (an empty address where the user
    /// has none). Without a page size, five predictions are listed; without an offset,
    /// from the first.
    pub fn predictions_query(
        title: &Option<String>,
        status: Option<PredictionStatus>,
        category_id: Option<u128>,
        user: Option<&User>,
        is_mine: Option<bool>,
        offset: Option<i32>,
        limit: Option<i32>,
    ) -> (q: SqlQuery)
        ensures
            is_listing(
                q,
                "SELECT p.* FROM prediction p"@,
                prediction_listing_clauses(
                    text_opt(*title),
                    status,
                    category_id,
                    match user {
                        Some(u) => Some(text_or_empty(u.wallet_address)),
                        None => None,
                    },
                    or_default(is_mine, false),
                ),
                " ORDER BY p.started_at, p.ended_at"@,
                or_default(limit, 5),
                or_default(offset, 0),
            ),
    {
        let mut clauses: Vec<Clause> = Vec::new();
        push_title(&mut clauses, title, "p.title ILIKE ");
        let status_code: Option<i16> = match status {
            Some(s) => Some(i16::from(s)),
            None => None,
        };
        push_status(&mut clauses, status_code, "p.status = ");
        push_any_category(&mut clauses, category_id);
        if is_mine.unwrap_or(false) {
            if let Some(u) = user {
                let wallet = match &u.wallet_address {
                    Some(w) => w.clone(),
                    None => String::new(),
                };
                push_clause(
                    &mut clauses,
                    Clause::JoinBound(
                        String::from_str(
                            " JOIN prediction_placement pp ON p.proposal_id = pp.proposal_id AND p.number = pp.milestone_index AND pp.user_address ILIKE ",
                        ),
                        String::from_str(" "),
                        SqlParam::Text(wallet),
                    ),
                );
            }
        }
        let ghost expected = prediction_listing_clauses(
            text_opt(*title),
            status,
            category_id,
            match user {
                Some(u) => Some(text_or_empty(u.wallet_address)),
                None => None,
            },
            or_default(is_mine, false),
        );
        assert(clause_views(clauses@) =~= expected);
        render_listing(
            "SELECT p.* FROM prediction p",
            &clauses,
            " ORDER BY p.started_at, p.ended_at",
            limit.unwrap_or(5),
            offset.unwrap_or(0),
        )
    }
}

/// Whether a text holds no `$`.
/// A request for the caller's own projects (with a user), for the public projects, or by
/// an admin, that names a status lists only projects with that status: its conditions
/// include `p.status = ` bound to the status. Without a status, the public listing holds
/// the projects being funded and the completed ones, each by its stored code.
pub proof fn lemma_project_listing_filters_status(
    title: Option<Seq<char>>,
    s: i16,
    category_id: Option<u128>,
    role: Option<Seq<char>>,
    user_id: Option<u128>,
    is_mine: bool,
    is_public: bool,
)
    requires
        (is_mine && user_id is Some) || (!is_mine && is_public) || (!is_mine && !is_public && role == Some(
            user_role_name(UserRoleType::Admin),
        )),
    ensures
        project_listing_clauses(title, Some(s), category_id, role, user_id, is_mine, is_public) matches Some(c)
            && c.contains(ClauseSpec::WhereBound("p.status = "@, Seq::empty(), SqlValue::SmallInt(s))),
        !is_mine && is_public ==> (project_listing_clauses(title, None, category_id, role, user_id, false, true)
            matches Some(c) && c.contains(
            ClauseSpec::Where("(p.status = "@ + decimal(8) + " OR p.status = "@ + decimal(9) + ")"@),
        )),
{
    let c = project_listing_clauses(title, Some(s), category_id, role, user_id, is_mine, is_public)->0;
    let t = title_clauses(title, "p.title ILIKE "@);
    let k: int = if is_mine { t.len() as int + 1 } else { t.len() as int };
    assert(c[k] == ClauseSpec::WhereBound("p.status = "@, Seq::empty(), SqlValue::SmallInt(s)));
    if !is_mine && is_public {
        let c2 = project_listing_clauses(title, None, category_id, role, user_id, false, true)->0;
        assert(c2[t.len() as int] == ClauseSpec::Where(public_projects_text()));
    }
}

/// Every project listing keeps the request's other filters: a title that is not empty
/// is matched anywhere in the project's title, a category must be among the project's,
/// and the caller's own projects are those whose owner is the caller.
pub proof fn lemma_project_listing_keeps_filters(
    title: Option<Seq<char>>,
    status: Option<i16>,
    category_id: Option<u128>,
    role: Option<Seq<char>>,
    user_id: Option<u128>,
    is_mine: bool,
    is_public: bool,
)
    ensures
        project_listing_clauses(title, status, category_id, role, user_id, is_mine, is_public) matches Some(c)
            ==> {
            &&& (title matches Some(t) && t.len() > 0) ==> c.contains(
                ClauseSpec::WhereBound("p.title ILIKE "@, Seq::empty(), SqlValue::Text(seq!['%'] + title->0 + seq!['%'])),
            )
            &&& category_id matches Some(k) ==> c.contains(
                ClauseSpec::WhereBound(Seq::empty(), " = ANY(p.category)"@, SqlValue::Id(k)),
            )
            &&& is_mine ==> c.contains(ClauseSpec::WhereBound("p.user_id = "@, Seq::empty(), SqlValue::Id(user_id->0)))
        },
{
    if let Some(c) = project_listing_clauses(title, status, category_id, role, user_id, is_mine, is_public) {
        let t = title_clauses(title, "p.title ILIKE "@);
        if title matches Some(x) && x.len() > 0 {
            assert(c[0] == t[0]);
        }
        if let Some(k) = category_id {
            assert(c[c.len() - 1] == ClauseSpec::WhereBound(Seq::empty(), " = ANY(p.category)"@, SqlValue::Id(k)));
        }
        if is_mine {
            assert(c[t.len() as int] == ClauseSpec::WhereBound("p.user_id = "@, Seq::empty(), SqlValue::Id(user_id->0)));
        }
    }
}

proof fn lemma_plain(t: &str)
    requires
        forall|i: int| 0 <= i < t@.len() ==> t@[i] != '$',
    ensures
        no_dollar(t@),
{
    lemma_literal_plain(t);
}

proof fn lemma_title_plain(title: Option<Seq<char>>, column: Seq<char>)
    requires
        no_dollar(column),
    ensures
        all_plain(title_clauses(title, column)),
{
    assert(count_char(Seq::<char>::empty(), '$') == 0);
}

proof fn lemma_status_plain(status: Option<i16>, text: Seq<char>)
    requires
        no_dollar(text),
    ensures
        all_plain(status_clauses(status, text)),
{
    assert(count_char(Seq::<char>::empty(), '$') == 0);
}

proof fn lemma_category_plain(category_id: Option<u128>)
    ensures
        all_plain(any_category_clauses(category_id)),
{
    reveal_strlit(" = ANY(p.category)");
    lemma_plain(" = ANY(p.category)");
    assert(count_char(Seq::<char>::empty(), '$') == 0);
}

/// Every project listing binds exactly one value for each placeholder in its text.
pub proof fn lemma_project_listing_placeholders(
    title: Option<Seq<char>>,
    status: Option<i16>,
    category_id: Option<u128>,
    role: Option<Seq<char>>,
    user_id: Option<u128>,
    is_mine: bool,
    is_public: bool,
    limit: i32,
    offset: i32,
)
    requires
        project_listing_clauses(title, status, category_id, role, user_id, is_mine, is_public) is Some,
    ensures
        ({
            let c = project_listing_clauses(title, status, category_id, role, user_id, is_mine, is_public)->0;
            count_char(
                listing_sql(project_select(), render_clauses(c, limit, offset), " ORDER BY p.updated_at DESC"@),
                '$',
            ) == render_clauses(c, limit, offset).values.len()
        }),
{
    reveal_strlit("p.title ILIKE ");
    reveal_strlit("p.user_id = ");
    reveal_strlit("p.status = ");
    reveal_strlit("(p.status = ");
    reveal_strlit(" OR p.status = ");
    reveal_strlit(")");
    reveal_strlit("p.status != ");
    reveal_strlit("p.status > ");
    reveal_strlit(" JOIN project_editor pe ON p.id = pe.project_id AND pe.user_id = ");
    reveal_strlit(" ");
    reveal_strlit(" ORDER BY p.updated_at DESC");
    reveal_strlit(
        "SELECT p.id, p.nerd_id, p.proposal_id, p.user_id, p.title, p.description, p.cover_photo, p.category, p.status, p.funding_goal, p.duration, p.tags, p.arweave_tx_id, p.funding_amount, p.count_contributors, p.created_at, p.updated_at, p.dao_at, p.started_at FROM project p",
    );
    lemma_plain("p.title ILIKE ");
    lemma_plain("p.user_id = ");
    lemma_plain("p.status = ");
    lemma_plain("(p.status = ");
    lemma_plain(" OR p.status = ");
    lemma_plain(")");
    lemma_plain("p.status != ");
    lemma_plain("p.status > ");
    lemma_plain(" JOIN project_editor pe ON p.id = pe.project_id AND pe.user_id = ");
    lemma_plain(" ");
    lemma_plain(" ORDER BY p.updated_at DESC");
    lemma_plain(
        "SELECT p.id, p.nerd_id, p.proposal_id, p.user_id, p.title, p.description, p.cover_photo, p.category, p.status, p.funding_goal, p.duration, p.tags, p.arweave_tx_id, p.funding_amount, p.count_contributors, p.created_at, p.updated_at, p.dao_at, p.started_at FROM project p",
    );
    lemma_title_plain(title, "p.title ILIKE "@);
    lemma_status_plain(status, "p.status = "@);
    lemma_category_plain(category_id);
    // The fixed conditions on statuses.
    lemma_decimal_plain(8);
    lemma_decimal_plain(9);
    lemma_decimal_plain(0);
    lemma_decimal_plain(2);
    lemma_no_dollar_concat("(p.status = "@, decimal(8));
    lemma_no_dollar_concat("(p.status = "@ + decimal(8), " OR p.status = "@);
    lemma_no_dollar_concat("(p.status = "@ + decimal(8) + " OR p.status = "@, decimal(9));
    lemma_no_dollar_concat("(p.status = "@ + decimal(8) + " OR p.status = "@ + decimal(9), ")"@);
    lemma_no_dollar_concat("p.status != "@, decimal(0));
    lemma_no_dollar_concat("p.status = "@, decimal(2));
    lemma_no_dollar_concat("p.status > "@, decimal(2));
    assert(public_projects_text() == "(p.status = "@ + decimal(8) + " OR p.status = "@ + decimal(9) + ")"@);
    let middle: Seq<ClauseSpec> = if is_mine {
        seq![bound_after("p.user_id = "@, SqlValue::Id(user_id->0))] + status_clauses(status, "p.status = "@)
    } else if is_public {
        match status {
            Some(s) => status_clauses(status, "p.status = "@),
            None => seq![ClauseSpec::Where(public_projects_text())],
        }
    } else if role == Some(user_role_name(UserRoleType::Admin)) {
        match status {
            Some(s) => status_clauses(status, "p.status = "@),
            None => seq![ClauseSpec::Where("p.status != "@ + decimal(project_status_code(ProjectStatus::Creating) as int))],
        }
    } else if role == Some(user_role_name(UserRoleType::Editor)) {
        seq![ClauseSpec::JoinBound(
            " JOIN project_editor pe ON p.id = pe.project_id AND pe.user_id = "@,
            " "@,
            SqlValue::Id(user_id->0),
        )] + editor_status_clauses(status)
    } else {
        Seq::empty()
    };
    assert(all_plain(seq![bound_after("p.user_id = "@, SqlValue::Id(user_id->0))]));
    lemma_all_plain_concat(seq![bound_after("p.user_id = "@, SqlValue::Id(user_id->0))], status_clauses(status, "p.status = "@));
    assert(all_plain(seq![ClauseSpec::Where(public_projects_text())]));
    assert(all_plain(seq![ClauseSpec::Where("p.status != "@ + decimal(0))]));
    assert(all_plain(editor_status_clauses(status)));
    assert(all_plain(seq![ClauseSpec::JoinBound(
        " JOIN project_editor pe ON p.id = pe.project_id AND pe.user_id = "@,
        " "@,
        SqlValue::Id(user_id->0),
    )]));
    lemma_all_plain_concat(
        seq![ClauseSpec::JoinBound(
            " JOIN project_editor pe ON p.id = pe.project_id AND pe.user_id = "@,
            " "@,
            SqlValue::Id(user_id->0),
        )],
        editor_status_clauses(status),
    );
    assert(all_plain(Seq::<ClauseSpec>::empty()));
    assert(all_plain(middle));
    lemma_all_plain_concat(title_clauses(title, "p.title ILIKE "@), middle);
    lemma_all_plain_concat(title_clauses(title, "p.title ILIKE "@) + middle, any_category_clauses(category_id));
    assert(project_listing_clauses(title, status, category_id, role, user_id, is_mine, is_public)->0
        == title_clauses(title, "p.title ILIKE "@) + middle + any_category_clauses(category_id));
    lemma_listing_placeholders(
        project_select(),
        project_listing_clauses(title, status, category_id, role, user_id, is_mine, is_public)->0,
        " ORDER BY p.updated_at DESC"@,
        limit,
        offset,
    );
}

/// Every DAO listing binds exactly one value for each placeholder in its text.
pub proof fn lemma_dao_listing_placeholders(
    title: Option<Seq<char>>,
    status: Option<i16>,
    user_id: Option<u128>,
    is_mine: bool,
    limit: i32,
    offset: i32,
)
    requires
        dao_listing_clauses(title, status, user_id, is_mine) is Some,
    ensures
        ({
            let c = dao_listing_clauses(title, status, user_id, is_mine)->0;
            count_char(listing_sql("SELECT d.* FROM dao d"@, render_clauses(c, limit, offset), " ORDER BY d.updated_at DESC"@), '$')
                == render_clauses(c, limit, offset).values.len()
        }),
{
    reveal_strlit("d.title ILIKE ");
    reveal_strlit("d.status = ");
    reveal_strlit(" JOIN dao_vote dv ON d.id = dv.dao_id AND dv.user_id = ");
    reveal_strlit(" ");
    reveal_strlit("SELECT d.* FROM dao d");
    reveal_strlit(" ORDER BY d.updated_at DESC");
    lemma_plain("d.title ILIKE ");
    lemma_plain("d.status = ");
    lemma_plain(" JOIN dao_vote dv ON d.id = dv.dao_id AND dv.user_id = ");
    lemma_plain(" ");
    lemma_plain("SELECT d.* FROM dao d");
    lemma_plain(" ORDER BY d.updated_at DESC");
    lemma_title_plain(title, "d.title ILIKE "@);
    lemma_status_plain(status, "d.status = "@);
    let join = seq![ClauseSpec::JoinBound(
        " JOIN dao_vote dv ON d.id = dv.dao_id AND dv.user_id = "@,
        " "@,
        SqlValue::Id(user_id->0),
    )];
    assert(all_plain(join));
    lemma_all_plain_concat(title_clauses(title, "d.title ILIKE "@), join);
    lemma_all_plain_concat(title_clauses(title, "d.title ILIKE "@), status_clauses(status, "d.status = "@));
    lemma_listing_placeholders(
        "SELECT d.* FROM dao d"@,
        dao_listing_clauses(title, status, user_id, is_mine)->0,
        " ORDER BY d.updated_at DESC"@,
        limit,
        offset,
    );
}

/// Every bounty listing binds exactly one value for each placeholder in its text.
pub proof fn lemma_bounty_listing_placeholders(
    title: Option<Seq<char>>,
    status: Option<BountyStatus>,
    category_id: Option<u128>,
    difficulty: Option<BountyDifficulty>,
    role: Option<Seq<char>>,
    user_id: Option<u128>,
    is_mine: bool,
    limit: i32,
    offset: i32,
)
    requires
        bounty_listing_clauses(title, status, category_id, difficulty, role, user_id, is_mine) is Some,
    ensures
        ({
            let c = bounty_listing_clauses(title, status, category_id, difficulty, role, user_id, is_mine)->0;
            count_char(listing_sql("SELECT b.* FROM bounty b"@, render_clauses(c, limit, offset), " ORDER BY b.updated_at DESC"@), '$')
                == render_clauses(c, limit, offset).values.len()
        }),
{
    reveal_strlit("b.title ILIKE ");
    reveal_strlit("b.status = ");
    reveal_strlit("b.category = ");
    reveal_strlit("b.difficulty = ");
    reveal_strlit("b.user_id = ");
    reveal_strlit("SELECT b.* FROM bounty b");
    reveal_strlit(" ORDER BY b.updated_at DESC");
    lemma_plain("b.title ILIKE ");
    lemma_plain("b.status = ");
    lemma_plain("b.category = ");
    lemma_plain("b.difficulty = ");
    lemma_plain("b.user_id = ");
    lemma_plain("SELECT b.* FROM bounty b");
    lemma_plain(" ORDER BY b.updated_at DESC");
    assert(count_char(Seq::<char>::empty(), '$') == 0);
    let t = title_clauses(title, "b.title ILIKE "@);
    let st = status_clauses(bounty_status_opt(status), "b.status = "@);
    let cat = match category_id {
        Some(c) => seq![bound_after("b.category = "@, SqlValue::Id(c))],
        None => Seq::<ClauseSpec>::empty(),
    };
    let d = status_clauses(bounty_difficulty_opt(difficulty), "b.difficulty = "@);
    lemma_title_plain(title, "b.title ILIKE "@);
    lemma_status_plain(bounty_status_opt(status), "b.status = "@);
    lemma_status_plain(bounty_difficulty_opt(difficulty), "b.difficulty = "@);
    assert(all_plain(cat));
    lemma_all_plain_concat(t, st);
    lemma_all_plain_concat(t + st, cat);
    lemma_all_plain_concat(t + st + cat, d);
    let common = t + st + cat + d;
    let owner = seq![bound_after("b.user_id = "@, SqlValue::Id(user_id->0))];
    assert(all_plain(owner));
    lemma_all_plain_concat(common, owner);
    assert(common + owner =~= common.push(bound_after("b.user_id = "@, SqlValue::Id(user_id->0))));
    lemma_listing_placeholders(
        "SELECT b.* FROM bounty b"@,
        bounty_listing_clauses(title, status, category_id, difficulty, role, user_id, is_mine)->0,
        " ORDER BY b.updated_at DESC"@,
        limit,
        offset,
    );
}

/// Every prediction listing binds exactly one value for each placeholder in its text.
pub proof fn lemma_prediction_listing_placeholders(
    title: Option<Seq<char>>,
    status: Option<PredictionStatus>,
    category_id: Option<u128>,
    wallet: Option<Seq<char>>,
    is_mine: bool,
    limit: i32,
    offset: i32,
)
    ensures
        ({
            let c = prediction_listing_clauses(title, status, category_id, wallet, is_mine);
            count_char(
                listing_sql("SELECT p.* FROM prediction p"@, render_clauses(c, limit, offset), " ORDER BY p.started_at, p.ended_at"@),
                '$',
            ) == render_clauses(c, limit, offset).values.len()
        }),
{
    reveal_strlit("p.title ILIKE ");
    reveal_strlit("p.status = ");
    reveal_strlit(
        " JOIN prediction_placement pp ON p.proposal_id = pp.proposal_id AND p.number = pp.milestone_index AND pp.user_address ILIKE ",
    );
    reveal_strlit(" ");
    reveal_strlit("SELECT p.* FROM prediction p");
    reveal_strlit(" ORDER BY p.started_at, p.ended_at");
    lemma_plain("p.title ILIKE ");
    lemma_plain("p.status = ");
    lemma_plain(
        " JOIN prediction_placement pp ON p.proposal_id = pp.proposal_id AND p.number = pp.milestone_index AND pp.user_address ILIKE ",
    );
    lemma_plain(" ");
    lemma_plain("SELECT p.* FROM prediction p");
    lemma_plain(" ORDER BY p.started_at, p.ended_at");
    let t = title_clauses(title, "p.title ILIKE "@);
    let st = status_clauses(prediction_status_opt(status), "p.status = "@);
    let cat = any_category_clauses(category_id);
    lemma_title_plain(title, "p.title ILIKE "@);
    lemma_status_plain(prediction_status_opt(status), "p.status = "@);
    lemma_category_plain(category_id);
    lemma_all_plain_concat(t, st);
    lemma_all_plain_concat(t + st, cat);
    let common = t + st + cat;
    match wallet {
        Some(w) => {
            let join = seq![ClauseSpec::JoinBound(
                " JOIN prediction_placement pp ON p.proposal_id = pp.proposal_id AND p.number = pp.milestone_index AND pp.user_address ILIKE "@,
                " "@,
                SqlValue::Text(w),
            )];
            assert(all_plain(join));
            lemma_all_plain_concat(common, join);
            assert(common + join =~= common.push(join[0]));
        },
        None => {},
    }
    lemma_listing_placeholders(
        "SELECT p.* FROM prediction p"@,
        prediction_listing_clauses(title, status, category_id, wallet, is_mine),
        " ORDER BY p.started_at, p.ended_at"@,
        limit,
        offset,
    );
}

} // verus!
