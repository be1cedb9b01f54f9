//! Requests and responses of the project, milestone and DAO endpoints.

use vstd::prelude::*;

verus! {

/// The second step of a project's proposal: its details, costs and tags.
#[derive(Debug, Clone)]
pub struct ProjectUpdateStep2Request {
    pub details: String,
    pub personnel_cost: i32,
    pub equipment_cost: Option<i32>,
    pub materials_cost: Option<i32>,
    pub overhead_cost: Option<i32>,
    pub other_cost: i32,
    pub tags: Option<Vec<String>>,
}

/// The third step of a project's proposal: its team and milestones.
#[derive(Debug, Clone)]
pub struct ProjectUpdateStep3Request {
    pub team_members: Vec<ProjectTeamMemberRequest>,
    pub milestones: Vec<ProjectMilestoneRequest>,
}

/// A member of a project's team, as proposed.
#[derive(Debug, Clone)]
pub struct ProjectTeamMemberRequest {
    pub name: String,
    pub role: String,
    pub bio: String,
    pub linkedin: String,
    pub twitter: String,
    pub github: String,
}

/// A milestone of a project, as proposed.
#[derive(Debug, Clone)]
pub struct ProjectMilestoneRequest {
    pub number: i16,
    pub title: String,
    pub description: String,
    pub funding_amount: i32,
    pub days_after_start: i32,
    pub days_of_prediction: i32,
}

/// An editor's or admin's verdict on a project.
#[derive(Debug, Clone)]
pub struct MakeDecisionRequest {
    pub status: i16,
    pub to_dao: Option<bool>,
    pub feedback: Option<String>,
}

/// The proof of progress submitted for a milestone.
#[derive(Debug, Clone)]
pub struct UpdateMilestoneRequest {
    pub progress_description: String,
    pub deliverables: Option<String>,
    pub challenges: Option<String>,
    pub next_steps: Option<String>,
    pub file_urls: Option<Vec<String>>,
    pub is_draft: bool,
}

/// The page of a project's comments.
#[derive(Debug, Clone)]
pub struct GetProjectCommentsOption {
    pub offset: Option<i32>,
    pub limit: Option<i32>,
}

/// A comment on a project.
#[derive(Debug, Clone)]
pub struct SubmitProjectCommentRequest {
    pub comment: String,
}

/// Filters and page of the DAO list.
#[derive(Debug, Clone)]
pub struct GetDaosOption {
    pub title: Option<String>,
    pub status: Option<i16>,
    pub is_mine: Option<bool>,
    pub offset: Option<i32>,
    pub limit: Option<i32>,
}

/// A vote on a project's DAO.
#[derive(Debug, Clone)]
pub struct SubmitDaoVoteRequest {
    pub proposal_id: String,
    pub wallet: String,
    pub support: bool,
    pub weight: String,
}

/// How many similar projects to list.
#[derive(Debug, Clone)]
pub struct GetSimilarProjectsOption {
    pub limit: Option<i32>,
}

/// The page of a project's funders.
#[derive(Debug, Clone)]
pub struct GetProjectFundersOption {
    pub offset: Option<i32>,
    pub limit: Option<i32>,
}

/// How many projects have a status.
#[derive(Debug, Clone)]
pub struct ProjectStatusCount {
    pub status: i16,
    pub count: i64,
}

impl Default for ProjectStatusCount {
    fn default() -> (r: Self)
        ensures
            r.status== 0,
            r.count== 0,
    {
        ProjectStatusCount {
            status: 0,
            count: 0,
        }
    }
}

/// The project counts per status and their total.
#[derive(Debug, Clone)]
pub struct ProjectStatusCounts {
    pub counts: Vec<ProjectStatusCount>,
    pub total: i64,
}

impl Default for ProjectStatusCounts {
    fn default() -> (r: Self)
        ensures
            r.counts@.len() == 0,
            r.total== 0,
    {
        ProjectStatusCounts {
            counts: Vec::new(),
            total: 0,
        }
    }
}

/// The project counts shown on the project pages.
#[derive(Debug, Clone)]
pub struct ProjectCountsResponse {
    pub all: i64,
    pub my_project: i64,
    pub funding: i64,
    pub featured: i64,
    pub trending: i64,
    pub funded: i64,
}

impl Default for ProjectCountsResponse {
    fn default() -> (r: Self)
        ensures
            r.all== 0,
            r.my_project== 0,
            r.funding== 0,
            r.featured== 0,
            r.trending== 0,
            r.funded== 0,
    {
        ProjectCountsResponse {
            all: 0,
            my_project: 0,
            funding: 0,
            featured: 0,
            trending: 0,
            funded: 0,
        }
    }
}

/// The project counts of the admin dashboard.
#[derive(Debug, Clone)]
pub struct AdminProjectDashboardCounts {
    pub all: i64,
    pub pending_review: i64,
    pub under_review: i64,
    pub approved: i64,
    pub dao_voting: i64,
    pub needs_revision: i64,
    pub rejected: i64,
    pub funding: i64,
    pub completed: i64,
}

impl Default for AdminProjectDashboardCounts {
    fn default() -> (r: Self)
        ensures
            r.all== 0,
            r.pending_review== 0,
            r.under_review== 0,
            r.approved== 0,
            r.dao_voting== 0,
            r.needs_revision== 0,
            r.rejected== 0,
            r.funding== 0,
            r.completed== 0,
    {
        AdminProjectDashboardCounts {
            all: 0,
            pending_review: 0,
            under_review: 0,
            approved: 0,
            dao_voting: 0,
            needs_revision: 0,
            rejected: 0,
            funding: 0,
            completed: 0,
        }
    }
}

/// The project counts of an editor's dashboard.
#[derive(Debug, Clone)]
pub struct EditorDashboardCounts {
    pub pending_reviews: i64,
    pub completed_reviews: i64,
    pub total_assigned: i64,
}

impl Default for EditorDashboardCounts {
    fn default() -> (r: Self)
        ensures
            r.pending_reviews== 0,
            r.completed_reviews== 0,
            r.total_assigned== 0,
    {
        EditorDashboardCounts {
            pending_reviews: 0,
            completed_reviews: 0,
            total_assigned: 0,
        }
    }
}

/// Counts of DAOs and votes.
#[derive(Debug, Clone)]
pub struct DaoStatisticsResponse {
    pub total: i64,
    pub active: i64,
    pub success: i64,
    pub failed: i64,
}

impl Default for DaoStatisticsResponse {
    fn default() -> (r: Self)
        ensures
            r.total== 0,
            r.active== 0,
            r.success== 0,
            r.failed== 0,
    {
        DaoStatisticsResponse {
            total: 0,
            active: 0,
            success: 0,
            failed: 0,
        }
    }
}

/// An admin's verdict on a milestone's proof.
#[derive(Debug, Clone)]
pub struct MilestoneApprovalRequest {
    pub status: MilestoneApprovalStatus,
    pub feedback: Option<String>,
}

/// A verdict on a milestone's proof.
#[derive(Debug, Clone, Copy, PartialEq, Eq, Structural)]
pub enum MilestoneApprovalStatus {
    Approved,
    Rejected,
}

/// The counts of a researcher's dashboard.
#[derive(Debug, Clone)]
pub struct ResearchProjectDashboardResponse {
    pub total_projects: i32,
    pub total_funded: i32,
    pub total_backers: i32,
    pub completed: i32,
}

/// Counts of a user's DAO votes.
#[derive(Debug, Clone)]
pub struct UserDaoVotingStats {
    pub total_votes: i64,
    pub yes_votes: i64,
    pub no_votes: i64,
    pub passed: i64,
    pub failed: i64,
}

impl Default for UserDaoVotingStats {
    fn default() -> (r: Self)
        ensures
            r.total_votes== 0,
            r.yes_votes== 0,
            r.no_votes== 0,
            r.passed== 0,
            r.failed== 0,
    {
        UserDaoVotingStats {
            total_votes: 0,
            yes_votes: 0,
            no_votes: 0,
            passed: 0,
            failed: 0,
        }
    }
}

/// The tabs of a user's DAO vote list.
#[derive(Debug, Clone, Copy, PartialEq, Eq, Structural)]
pub enum DaoVoteTab {
    All,
    Yes,
    No,
    Passed,
    Failed,
}

impl Default for DaoVoteTab {
    fn default() -> (r: Self)
        ensures
            r == DaoVoteTab::All,
    {
        DaoVoteTab::All
    }
}

/// The tab and page of a user's DAO votes.
#[derive(Debug, Clone)]
pub struct GetUserDaoVotesOption {
    pub search: Option<String>,
    pub tab: Option<DaoVoteTab>,
    pub offset: Option<i32>,
    pub limit: Option<i32>,
}
} // verus!
