//! The decisions that the project service takes between its database round trips:
//! reviews by editors and admins, the DAO vote, funding and its prediction windows,
//! donations and the project counts.
//!
//! Days are counted as whole days (such as days since the common era); the caller
//! turns them into calendar dates.

use vstd::prelude::*;
use crate::dto::project_dto::{ProjectCountsResponse, ProjectStatusCount};
use crate::error::{db_error, is_db_error, ApiError};
use crate::models::Milestone;
use crate::service::ProjectService;
use crate::text::{contains_text, holds_text};
use crate::types::{
    project_status_code, project_status_of, user_role_name, FeedbackStatus,
    ProjectStatus, UserRoleType,
};

verus! {

/// The status that an editor's verdict moves a project to; none for `Pending`, which is
/// no verdict.
pub open spec fn editor_verdict_status(verdict: FeedbackStatus) -> Option<ProjectStatus> {
    match verdict {
        FeedbackStatus::Accepted => Some(ProjectStatus::ApprovedEditor),
        FeedbackStatus::RevisionRequired => Some(ProjectStatus::RevisionEditor),
        FeedbackStatus::Rejected => Some(ProjectStatus::Rejected),
        FeedbackStatus::Pending => None,
    }
}

/// What an admin's verdict does to a project: its new status, and whether its DAO vote
/// opens now or its funding starts now.
#[derive(Debug, Clone, Copy, PartialEq, Eq, Structural)]
pub struct AdminDecision {
    pub status: ProjectStatus,
    pub opens_dao: bool,
    pub starts_funding: bool,
}

/// What an admin's verdict does: an accepted project goes to a DAO vote where the admin
/// asks for one, else straight to funding; none for `Pending`, which is no verdict.
pub open spec fn admin_verdict(verdict: FeedbackStatus, to_dao: bool) -> Option<AdminDecision> {
    match verdict {
        FeedbackStatus::Accepted => if to_dao {
            Some(AdminDecision { status: ProjectStatus::DaoVoting, opens_dao: true, starts_funding: false })
        } else {
            Some(AdminDecision { status: ProjectStatus::Funding, opens_dao: false, starts_funding: true })
        },
        FeedbackStatus::RevisionRequired => Some(
            AdminDecision { status: ProjectStatus::RevisionAdmin, opens_dao: false, starts_funding: false },
        ),
        FeedbackStatus::Rejected => Some(
            AdminDecision { status: ProjectStatus::Rejected, opens_dao: false, starts_funding: false },
        ),
        FeedbackStatus::Pending => None,
    }
}

/// What follows once an admin's verdict is stored, by the status that the project
/// then has.
#[derive(Debug, Clone, Copy, PartialEq, Eq, Structural)]
pub enum AdminFollowUp {
    /// Register the project on chain and open its DAO.
    OpenDao,
    /// Start the first milestone and open the predictions of every milestone.
    StartFunding,
    Nothing,
}

/// What follows a stored admin verdict, by the project's new status code.
pub open spec fn admin_follow_up_of(status: i16) -> AdminFollowUp {
    if status == project_status_code(ProjectStatus::DaoVoting) {
        AdminFollowUp::OpenDao
    } else if status == project_status_code(ProjectStatus::Funding) {
        AdminFollowUp::StartFunding
    } else {
        AdminFollowUp::Nothing
    }
}

/// The status that a finished DAO vote moves a project to: funding where the vote
/// passed, else rejected; none where the project is no longer in its DAO vote.
pub open spec fn dao_vote_outcome(project_status: i16, passed: bool) -> Option<ProjectStatus> {
    if project_status == project_status_code(ProjectStatus::DaoVoting) {
        if passed {
            Some(ProjectStatus::Funding)
        } else {
            Some(ProjectStatus::Rejected)
        }
    } else {
        None
    }
}

/// The code of a vote or of a DAO result: 1 for, 2 against.
pub open spec fn vote_code(support: bool) -> i16 {
    if support {
        1
    } else {
        2
    }
}

/// The status that a finished vote gives a DAO: its result where the DAO is still
/// active (0), none where it has already closed.
pub open spec fn dao_closing_status(dao_status: i16, passed: bool) -> Option<i16> {
    if dao_status == 0 {
        Some(vote_code(passed))
    } else {
        None
    }
}

/// The window in which the predictions on a milestone run, as its first and last day:
/// the first window opens today; each milestone's window closes its
/// `days_after_start` days after today; the next opens the day after.
pub open spec fn prediction_window(today: int, days: Seq<i32>, i: int) -> (int, int) {
    (if i == 0 {
        today
    } else {
        today + days[i - 1] + 1
    }, today + days[i])
}

/// The days after the start at which each milestone is due.
pub open spec fn milestone_days(milestones: Seq<Milestone>) -> Seq<i32> {
    milestones.map_values(|m: Milestone| m.days_after_start)
}

/// The number of projects counted under the first entry with the status, or zero.
pub open spec fn count_of_status(counts: Seq<ProjectStatusCount>, status: i16) -> int
    decreases counts.len(),
{
    if counts.len() == 0 {
        0
    } else if counts[0].status == status {
        counts[0].count as int
    } else {
        count_of_status(counts.drop_first(), status)
    }
}

/// The total of the counts.
pub open spec fn total_count(counts: Seq<ProjectStatusCount>) -> int
    decreases counts.len(),
{
    if counts.len() == 0 {
        0
    } else {
        total_count(counts.drop_last()) + counts.last().count
    }
}

/// Whether every partial total of the counts fits in 64 bits.
pub open spec fn totals_fit(counts: Seq<ProjectStatusCount>) -> bool {
    forall|k: int| 0 <= k <= counts.len() ==> i64::MIN <= #[trigger] total_count(counts.take(k)) <= i64::MAX
}

/// A stored status filter as it is used: each code is read as a status and written back,
/// so that codes past the last status filter on `Rejected`.
pub open spec fn normalized_status(status: Option<i16>) -> Option<i16> {
    match status {
        Some(s) => Some(project_status_code(project_status_of(s))),
        None => None,
    }
}

impl ProjectService {
    /// The status that an editor's verdict moves the project to; a `Pending` verdict is
    /// refused.
    pub fn editor_decision_status(verdict: FeedbackStatus) -> (r: Result<ProjectStatus, ApiError>)
        ensures
            match editor_verdict_status(verdict) {
                Some(s) => r == Ok::<ProjectStatus, ApiError>(s),
                None => r matches Err(e) && is_db_error(e, "Status should not be Pending"@),
            },
    {
        match verdict {
            FeedbackStatus::Accepted => Ok(ProjectStatus::ApprovedEditor),
            FeedbackStatus::RevisionRequired => Ok(ProjectStatus::RevisionEditor),
            FeedbackStatus::Rejected => Ok(ProjectStatus::Rejected),
            FeedbackStatus::Pending => Err(db_error("Status should not be Pending")),
        }
    }

    /// What an admin's verdict does to the project; a `Pending` verdict is refused.
    pub fn admin_decision(verdict: FeedbackStatus, to_dao: bool) -> (r: Result<AdminDecision, ApiError>)
        ensures
            match admin_verdict(verdict, to_dao) {
                Some(d) => r == Ok::<AdminDecision, ApiError>(d),
                None => r matches Err(e) && is_db_error(e, "Status should not be Pending"@),
            },
    {
        match verdict {
            FeedbackStatus::Accepted => {
                if to_dao {
                    Ok(AdminDecision { status: ProjectStatus::DaoVoting, opens_dao: true, starts_funding: false })
                } else {
                    Ok(AdminDecision { status: ProjectStatus::Funding, opens_dao: false, starts_funding: true })
                }
            },
            FeedbackStatus::RevisionRequired => Ok(
                AdminDecision { status: ProjectStatus::RevisionAdmin, opens_dao: false, starts_funding: false },
            ),
            FeedbackStatus::Rejected => Ok(
                AdminDecision { status: ProjectStatus::Rejected, opens_dao: false, starts_funding: false },
            ),
            FeedbackStatus::Pending => Err(db_error("Status should not be Pending")),
        }
    }

    /// What follows once an admin's verdict is stored, by the project's new status code.
    pub fn admin_follow_up(status: i16) -> (r: AdminFollowUp)
        ensures
            r == admin_follow_up_of(status),
    {
        if status == ProjectStatus::DaoVoting.to_i16() {
            AdminFollowUp::OpenDao
        } else if status == ProjectStatus::Funding.to_i16() {
            AdminFollowUp::StartFunding
        } else {
            AdminFollowUp::Nothing
        }
    }

    /// The wallet to which a project's DAO pays out: the researcher's, which must be set
    /// and not empty.
    pub fn researcher_wallet(wallet: &Option<String>) -> (r: Result<String, ApiError>)
        ensures
            match wallet {
                Some(w) => if w@.len() > 0 {
                    r matches Ok(v) && v@ == w@
                } else {
                    r matches Err(e) && is_db_error(e, "Can't find the wallet address of the researcher"@)
                },
                None => r matches Err(e) && is_db_error(e, "Can't find the wallet address of the researcher"@),
            },
    {
        match wallet {
            Some(w) => {
                if w.unicode_len() > 0 {
                    Ok(w.clone())
                } else {
                    Err(db_error("Can't find the wallet address of the researcher"))
                }
            },
            None => Err(db_error("Can't find the wallet address of the researcher")),
        }
    }

    /// The milestones as the chain records them: for each, in order, the days after the
    /// start at which it is due and the amount it is funded with (each read as a 64-bit
    /// unsigned number, as `as u64` reads it).
    pub fn milestone_chain_data(milestones: &Vec<Milestone>) -> (data: Vec<(u64, u64)>)
        ensures
            data@.len() == milestones@.len(),
            forall|i: int| 0 <= i < milestones@.len() ==> #[trigger] data@[i] == (
                milestones@[i].days_after_start as u64,
                milestones@[i].funding_amount as u64,
            ),
    {
        let mut data: Vec<(u64, u64)> = Vec::new();
        let mut i: usize = 0;
        while i < milestones.len()
            invariant
                i <= milestones@.len(),
                data@.len() == i,
                forall|j: int| 0 <= j < i ==> #[trigger] data@[j] == (
                    milestones@[j].days_after_start as u64,
                    milestones@[j].funding_amount as u64,
                ),
            decreases milestones.len() - i,
        {
            let m = &milestones[i];
            data.push((m.days_after_start as u64, m.funding_amount as u64));
            i = i + 1;
        }
        data
    }

    /// The milestone that starts when funding starts: the first, if there is one.
    pub fn first_milestone(milestones: &Vec<Milestone>) -> (id: Option<u128>)
        ensures
            milestones@.len() == 0 ==> id is None,
            milestones@.len() > 0 ==> id == Some(milestones@[0].id),
    {
        if milestones.len() > 0 {
            Some(milestones[0].id)
        } else {
            None
        }
    }

    /// The prediction windows of the milestones, in order, as first and last day: the
    /// first opens today, each closes its milestone's `days_after_start` days after
    /// today, and the next opens the day after.
    pub fn prediction_windows(today: i64, milestones: &Vec<Milestone>) -> (w: Vec<(i64, i64)>)
        requires
            -0x1000_0000_0000 <= today <= 0x1000_0000_0000,
        ensures
            w@.len() == milestones@.len(),
            forall|i: int| 0 <= i < w@.len() ==> {
                let (s, e) = #[trigger] w@[i];
                (s as int, e as int) == prediction_window(today as int, milestone_days(milestones@), i)
            },
    {
        let ghost days = milestone_days(milestones@);
        let mut windows: Vec<(i64, i64)> = Vec::new();
        let mut start: i64 = today;
        let mut i: usize = 0;
        while i < milestones.len()
            invariant
                -0x1000_0000_0000 <= today <= 0x1000_0000_0000,
                days == milestone_days(milestones@),
                i <= milestones@.len(),
                windows@.len() == i,
                start as int == (if i == 0 {
                    today as int
                } else {
                    today + days[i - 1] + 1
                }),
                forall|j: int| 0 <= j < i ==> {
                    let (s, e) = #[trigger] windows@[j];
                    (s as int, e as int) == prediction_window(today as int, days, j)
                },
            decreases milestones.len() - i,
        {
            let end: i64 = today + milestones[i].days_after_start as i64;
            windows.push((start, end));
            start = end + 1;
            i = i + 1;
        }
        windows
    }

    /// The status that a finished DAO vote moves the project to, where the project is
    /// still in its DAO vote.
    pub fn dao_vote_result(project_status: i16, passed: bool) -> (r: Option<ProjectStatus>)
        ensures
            r == dao_vote_outcome(project_status, passed),
    {
        if project_status == ProjectStatus::DaoVoting.to_i16() {
            if passed {
                Some(ProjectStatus::Funding)
            } else {
                Some(ProjectStatus::Rejected)
            }
        } else {
            None
        }
    }

    /// The status that closes a DAO after its vote, where the DAO is still active.
    pub fn dao_closing(dao_status: i16, passed: bool) -> (r: Option<i16>)
        ensures
            r == dao_closing_status(dao_status, passed),
    {
        if dao_status == 0 {
            Some(if passed {
                1
            } else {
                2
            })
        } else {
            None
        }
    }

    /// The code under which a vote is stored; a second vote of the same user on a DAO is
    /// refused.
    pub fn dao_vote_code(support: bool, already_voted: bool) -> (r: Result<i16, ApiError>)
        ensures
            already_voted ==> (r matches Err(e) && is_db_error(e, "You have already voted for this dao"@)),
            !already_voted ==> r == Ok::<i16, ApiError>(vote_code(support)),
    {
        if already_voted {
            return Err(db_error("You have already voted for this dao"));
        }
        Ok(if support {
            1
        } else {
            2
        })
    }

    /// The number, counted from 1, of the milestone that a donation made on chain to
    /// milestone `number` (counted from 0) goes to; refused where the project has fewer
    /// milestones (the count is compared with the number read as `usize`, as `as usize`
    /// reads it).
    pub fn donation_milestone(number: i16, milestone_count: usize) -> (r: Result<i16, ApiError>)
        requires
            number < i16::MAX,
        ensures
            milestone_count < ((number + 1) as i16) as usize ==> (r matches Err(e) && is_db_error(e, "Milestone not found"@)),
            milestone_count >= ((number + 1) as i16) as usize ==> r == Ok::<i16, ApiError>((number + 1) as i16),
    {
        let n = number + 1;
        if milestone_count < n as usize {
            return Err(db_error("Milestone not found"));
        }
        Ok(n)
    }

    /// Whether the user may be assigned to review the project: they must hold the editor
    /// role, and the project must be waiting for review.
    pub fn check_editor_assignment(editor_roles: &Vec<String>, project_status: i16) -> (r: Result<(), ApiError>)
        ensures
            !holds_text(editor_roles@, user_role_name(UserRoleType::Editor)) ==> (r matches Err(e)
                && is_db_error(e, "This user has not an editor role"@)),
            holds_text(editor_roles@, user_role_name(UserRoleType::Editor)) && project_status
                != project_status_code(ProjectStatus::PendingReview) ==> (r matches Err(e) && is_db_error(e, "Project's status is not PendingReview"@)),
            holds_text(editor_roles@, user_role_name(UserRoleType::Editor)) && project_status
                == project_status_code(ProjectStatus::PendingReview) ==> r is Ok,
    {
        let editor = UserRoleType::Editor.to_string();
        if !contains_text(editor_roles, editor.as_str()) {
            return Err(db_error("This user has not an editor role"));
        }
        if project_status != ProjectStatus::PendingReview.to_i16() {
            return Err(db_error("Project's status is not PendingReview"));
        }
        Ok(())
    }

    /// Only the owner of a project may delete it.
    pub fn check_owner(owner_id: u128, user_id: u128) -> (r: Result<(), ApiError>)
        ensures
            owner_id == user_id ==> r is Ok,
            owner_id != user_id ==> (r matches Err(e) && is_db_error(e, "No permission"@)),
    {
        if owner_id != user_id {
            return Err(db_error("No permission"));
        }
        Ok(())
    }

    /// The proof status that a milestone update stores: 0 for a draft, 1 for a submitted
    /// proof.
    pub fn milestone_proof_status(is_draft: bool) -> (s: i16)
        ensures
            s == (if is_draft {
                0i16
            } else {
                1i16
            }),
    {
        if is_draft {
            0
        } else {
            1
        }
    }

    /// A status filter as listings use it: each code read as a status and written back.
    pub fn normalize_status_filter(status: Option<i16>) -> (r: Option<i16>)
        ensures
            r == normalized_status(status),
    {
        match status {
            Some(s) => Some(ProjectStatus::from(s).to_i16()),
            None => None,
        }
    }

    /// The project counts shown to a user: those being funded (the first count with the
    /// `Funding` status), those funded (the first with `Completed`), all as their sum,
    /// and, for a signed-in user, the total of their own counts; featured and trending
    /// are not counted yet.
    pub fn project_counts(
        all_counts: &Vec<ProjectStatusCount>,
        user_counts: Option<&Vec<ProjectStatusCount>>,
    ) -> (r: ProjectCountsResponse)
        requires
            i64::MIN <= count_of_status(all_counts@, project_status_code(ProjectStatus::Funding))
                + count_of_status(all_counts@, project_status_code(ProjectStatus::Completed)) <= i64::MAX,
            match user_counts {
                Some(c) => totals_fit(c@),
                None => true,
            },
        ensures
            r.funding == count_of_status(all_counts@, project_status_code(ProjectStatus::Funding)),
            r.funded == count_of_status(all_counts@, project_status_code(ProjectStatus::Completed)),
            r.all == r.funding + r.funded,
            r.my_project == match user_counts {
                Some(c) => total_count(c@),
                None => 0,
            },
            r.featured == 0,
            r.trending == 0,
    {
        let my_project: i64 = match user_counts {
            Some(c) => sum_counts(c),
            None => 0,
        };
        let funding = first_count(all_counts, ProjectStatus::Funding.to_i16());
        let funded = first_count(all_counts, ProjectStatus::Completed.to_i16());
        ProjectCountsResponse {
            all: funding + funded,
            my_project,
            funding,
            featured: 0,
            trending: 0,
            funded,
        }
    }
}

proof fn lemma_count_of_status_suffix(counts: Seq<ProjectStatusCount>, status: i16, i: int)
    requires
        0 <= i <= counts.len(),
        forall|j: int| 0 <= j < i ==> (#[trigger] counts[j]).status != status,
    ensures
        count_of_status(counts, status) == count_of_status(counts.subrange(i, counts.len() as int), status),
    decreases i,
{
    if i > 0 {
        assert(counts.drop_first().subrange(i - 1, counts.drop_first().len() as int) =~= counts.subrange(
            i,
            counts.len() as int,
        ));
        lemma_count_of_status_suffix(counts.drop_first(), status, i - 1);
    } else {
        assert(counts.subrange(0, counts.len() as int) =~= counts);
    }
}

fn first_count(counts: &Vec<ProjectStatusCount>, status: i16) -> (n: i64)
    ensures
        n == count_of_status(counts@, status),
{
    let mut i: usize = 0;
    while i < counts.len()
        invariant
            i <= counts@.len(),
            forall|j: int| 0 <= j < i ==> (#[trigger] counts@[j]).status != status,
        decreases counts.len() - i,
    {
        if counts[i].status == status {
            proof {
                lemma_count_of_status_suffix(counts@, status, i as int);
            }
            return counts[i].count;
        }
        i = i + 1;
    }
    proof {
        lemma_count_of_status_suffix(counts@, status, i as int);
    }
    0
}

fn sum_counts(counts: &Vec<ProjectStatusCount>) -> (n: i64)
    requires
        totals_fit(counts@),
    ensures
        n == total_count(counts@),
{
    let mut total: i64 = 0;
    let mut i: usize = 0;
    proof {
        assert(counts@.take(0) =~= Seq::<ProjectStatusCount>::empty());
    }
    while i < counts.len()
        invariant
            i <= counts@.len(),
            totals_fit(counts@),
            total == total_count(counts@.take(i as int)),
        decreases counts.len() - i,
    {
        proof {
            assert(counts@.take(i + 1).drop_last() =~= counts@.take(i as int));
            let _ = total_count(counts@.take(i + 1));
        }
        total = total + counts[i].count;
        i = i + 1;
    }
    proof {
        assert(counts@.take(counts@.len() as int) =~= counts@);
    }
    total
}

/// Reading a normalized status filter again changes nothing.
pub proof fn lemma_normalized_status_idempotent(status: Option<i16>)
    ensures
        normalized_status(normalized_status(status)) == normalized_status(status),
{
}

/// An admin's verdict never both opens a DAO vote and starts funding; a DAO vote opens
/// exactly when an accepted project goes to one, and funding starts exactly when an
/// accepted project skips it; every verdict but `Pending` is taken.
pub proof fn lemma_admin_verdict_paths(verdict: FeedbackStatus, to_dao: bool)
    ensures
        (verdict == FeedbackStatus::Pending) <==> admin_verdict(verdict, to_dao) is None,
        admin_verdict(verdict, to_dao) matches Some(d) ==> !(d.opens_dao && d.starts_funding),
        admin_verdict(verdict, to_dao) matches Some(d) ==> (d.opens_dao <==> (verdict
            == FeedbackStatus::Accepted && to_dao)),
        admin_verdict(verdict, to_dao) matches Some(d) ==> (d.starts_funding <==> (verdict
            == FeedbackStatus::Accepted && !to_dao)),
        admin_verdict(verdict, to_dao) matches Some(d) ==> admin_follow_up_of(project_status_code(d.status))
            == (if d.opens_dao {
            AdminFollowUp::OpenDao
        } else if d.starts_funding {
            AdminFollowUp::StartFunding
        } else {
            AdminFollowUp::Nothing
        }),
{
}

/// The status that an admin's verdict gives a project: a project sent back for revision
/// goes to `RevisionAdmin` and a rejected one to `Rejected`, whether or not a DAO vote was
/// asked for; an accepted one goes to its DAO vote (`DaoVoting`) where one was asked for
/// and to `Funding` otherwise. Only an accepted verdict depends on the DAO flag.
pub proof fn lemma_admin_verdict_status(to_dao: bool)
    ensures
        admin_verdict(FeedbackStatus::RevisionRequired, to_dao) == Some(
            AdminDecision { status: ProjectStatus::RevisionAdmin, opens_dao: false, starts_funding: false },
        ),
        admin_verdict(FeedbackStatus::Rejected, to_dao) == Some(
            AdminDecision { status: ProjectStatus::Rejected, opens_dao: false, starts_funding: false },
        ),
        admin_verdict(FeedbackStatus::Accepted, true) == Some(
            AdminDecision { status: ProjectStatus::DaoVoting, opens_dao: true, starts_funding: false },
        ),
        admin_verdict(FeedbackStatus::Accepted, false) == Some(
            AdminDecision { status: ProjectStatus::Funding, opens_dao: false, starts_funding: true },
        ),
        admin_verdict(FeedbackStatus::Pending, to_dao) is None,
{
}

/// Each prediction window after the first opens the day after the previous one closes.
pub proof fn lemma_prediction_windows_follow(today: int, days: Seq<i32>, i: int)
    requires
        0 < i < days.len(),
    ensures
        prediction_window(today, days, i).0 == prediction_window(today, days, i - 1).1 + 1,
{
}

/// A DAO vote on a project in its vote ends it either way, and the closing result of an
/// active DAO agrees with the project's new status.
pub proof fn lemma_dao_vote_closes(passed: bool)
    ensures
        dao_vote_outcome(project_status_code(ProjectStatus::DaoVoting), passed) == Some(
            if passed {
                ProjectStatus::Funding
            } else {
                ProjectStatus::Rejected
            },
        ),
        dao_closing_status(0, passed) == Some(vote_code(passed)),
        forall|s: i16| s != 0 ==> dao_closing_status(s, passed) is None,
{
}

/// A vote on a DAO as the vote table keeps it: the DAO, the voter, the stored vote code
/// (1 for, 2 against) and the voter's weight in the token's smallest unit.
#[derive(Debug, Clone, Copy, PartialEq, Eq, Structural)]
pub struct DaoVoteEntry {
    pub dao: u128,
    pub user: u128,
    pub status: i16,
    pub weight: u128,
}

/// Whether the user has a vote on the DAO among the entries.
pub open spec fn has_voted(entries: Seq<DaoVoteEntry>, dao: u128, user: u128) -> bool {
    exists|i: int| 0 <= i < entries.len() && (#[trigger] entries[i]).dao == dao && entries[i].user == user
}

/// The entries after a vote: the vote added where the user has none on the DAO yet;
/// `None` where the vote is refused.
pub open spec fn entries_after_vote(
    entries: Seq<DaoVoteEntry>,
    dao: u128,
    user: u128,
    support: bool,
    weight: u128,
) -> Option<Seq<DaoVoteEntry>> {
    if has_voted(entries, dao, user) {
        None
    } else {
        Some(entries.push(DaoVoteEntry { dao, user, status: vote_code(support), weight }))
    }
}

/// A DAO's tally: the votes for and against it, and the weights for and against it.
pub open spec fn dao_tally(entries: Seq<DaoVoteEntry>, dao: u128) -> (int, int, int, int)
    decreases entries.len(),
{
    if entries.len() == 0 {
        (0, 0, 0, 0)
    } else {
        let (cf, ca, af, aa) = dao_tally(entries.drop_last(), dao);
        let e = entries.last();
        if e.dao != dao {
            (cf, ca, af, aa)
        } else if e.status == 1 {
            (cf + 1, ca, af + e.weight, aa)
        } else {
            (cf, ca + 1, af, aa + e.weight)
        }
    }
}

/// The votes cast on the platform's DAOs.
pub struct DaoVoteBook {
    entries: Vec<DaoVoteEntry>,
}

impl DaoVoteBook {
    /// The votes, in the order they were cast.
    pub closed spec fn entries(&self) -> Seq<DaoVoteEntry> {
        self.entries@
    }

    /// A book with no votes.
    pub fn new() -> (b: DaoVoteBook)
        ensures
            b.entries() == Seq::<DaoVoteEntry>::empty(),
    {
        DaoVoteBook { entries: Vec::new() }
    }

    /// Whether the user has voted on the DAO.
    pub fn has_voted(&self, dao: u128, user: u128) -> (voted: bool)
        ensures
            voted == has_voted(self.entries(), dao, user),
    {
        let mut i: usize = 0;
        while i < self.entries.len()
            invariant
                i <= self.entries@.len(),
                forall|k: int|
                    0 <= k < i ==> !((#[trigger] self.entries@[k]).dao == dao && self.entries@[k].user == user),
            decreases self.entries.len() - i,
        {
            let e = self.entries[i];
            if e.dao == dao && e.user == user {
                return true;
            }
            i = i + 1;
        }
        false
    }

    /// Records a user's vote on a DAO, which raises the DAO's tally by the vote; a second
    /// vote of the same user on the same DAO is refused and changes nothing.
    pub fn submit_vote(&mut self, dao: u128, user: u128, support: bool, weight: u128) -> (r: Result<bool, ApiError>)
        ensures
            match entries_after_vote(old(self).entries(), dao, user, support, weight) {
                Some(n) => r == Ok::<bool, ApiError>(true) && final(self).entries() == n,
                None => (r matches Err(e) && is_db_error(e, "You have already voted for this dao"@))
                    && final(self).entries() == old(self).entries(),
            },
    {
        let voted = self.has_voted(dao, user);
        match ProjectService::dao_vote_code(support, voted) {
            Ok(code) => {
                self.entries.push(DaoVoteEntry { dao, user, status: code, weight });
                Ok(true)
            },
            Err(e) => Err(e),
        }
    }
}

/// A vote raises its DAO's tally by one vote and its weight, on the side it takes, and
/// leaves the other DAOs' tallies as they were.
pub proof fn lemma_vote_raises_tally(
    entries: Seq<DaoVoteEntry>,
    dao: u128,
    user: u128,
    support: bool,
    weight: u128,
    other: u128,
)
    requires
        !has_voted(entries, dao, user),
    ensures
        ({
            let after = entries_after_vote(entries, dao, user, support, weight)->0;
            let (cf, ca, af, aa) = dao_tally(entries, dao);
            &&& dao_tally(after, dao) == (if support {
                (cf + 1, ca, af + weight, aa)
            } else {
                (cf, ca + 1, af, aa + weight)
            })
            &&& other != dao ==> dao_tally(after, other) == dao_tally(entries, other)
        }),
{
    let after = entries_after_vote(entries, dao, user, support, weight)->0;
    assert(after.drop_last() =~= entries);
}

/// A wallet votes at most once on a DAO: once a vote of the user on the DAO is
/// recorded, any further vote of theirs on it, for either side and with any weight, is
/// refused, and the DAO's votes and tally stay as they were.
pub proof fn lemma_one_vote_per_user(
    entries: Seq<DaoVoteEntry>,
    dao: u128,
    user: u128,
    first_support: bool,
    first_weight: u128,
    support: bool,
    weight: u128,
)
    requires
        entries_after_vote(entries, dao, user, first_support, first_weight) is Some,
    ensures
        ({
            let after = entries_after_vote(entries, dao, user, first_support, first_weight)->0;
            &&& has_voted(after, dao, user)
            &&& entries_after_vote(after, dao, user, support, weight) is None
        }),
{
    let after = entries_after_vote(entries, dao, user, first_support, first_weight)->0;
    let k = entries.len() as int;
    assert(after[k].dao == dao && after[k].user == user);
}

} // verus!
