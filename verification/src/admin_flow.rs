//! The order in which an admin's verdict on a project is carried out: the verdict is
//! stored first; a project sent to its DAO vote is then registered on chain for its
//! researcher's wallet and gets its DAO; a project sent to funding starts its first
//! milestone and opens the predictions of its milestones. Each step takes what the
//! storage or the chain answered and says what to do next; the first failure ends the
//! flow with its error, and nothing done before it is undone.

use vstd::prelude::*;
use crate::error::{db_error, is_db_error, ApiError};
use crate::models::Milestone;
use crate::project_flow::{admin_follow_up_of, admin_verdict, AdminDecision, AdminFollowUp};
use crate::service::ProjectService;
use crate::types::FeedbackStatus;

verus! {

/// Where the carrying out of an admin's verdict stands.
#[derive(Debug, Clone)]
pub enum AdminFlow {
    /// The verdict, not yet acted on.
    Start { verdict: FeedbackStatus, to_dao: bool },
    /// Waiting for the verdict to be stored.
    AwaitStored,
    /// Waiting for the project's researcher.
    AwaitResearcher,
    /// Waiting for the milestones of a project going to its DAO vote, to be paid out to
    /// the wallet.
    AwaitDaoMilestones { wallet: String },
    /// Waiting for the project to be registered on chain.
    AwaitChainProject,
    /// Waiting for the DAO to be created.
    AwaitDao,
    /// Waiting for the milestones of a project going to funding.
    AwaitFundingMilestones,
    /// Waiting for the first milestone to be put in progress.
    AwaitFirstMilestone,
    /// Waiting for the predictions of the milestones to be opened.
    AwaitPredictions,
    /// Finished.
    Done,
}

/// What the storage or the chain answered.
#[derive(Debug, Clone)]
pub enum AdminEvent {
    /// The flow is started.
    Begin,
    /// The verdict was stored and the project now has this status code; `None` where
    /// storing it failed.
    Stored { status: Option<i16> },
    /// The project's researcher and their wallet; `None` where there is no researcher.
    Researcher { wallet: Option<Option<String>> },
    /// The project's milestones, in order.
    Milestones { milestones: Vec<Milestone> },
    /// The project was registered on chain, or the chain client's error.
    ChainProject { error: Option<String> },
    /// Whether the DAO was created.
    DaoCreated { created: bool },
    /// Whether the first milestone was put in progress.
    FirstMilestoneStarted { started: bool },
    /// The predictions of the milestones were opened.
    PredictionsCreated,
}

/// What to do next.
#[derive(Debug, Clone)]
pub enum AdminAction {
    /// Store the verdict's decision.
    StoreDecision { decision: AdminDecision },
    /// Look up the project's researcher.
    FindResearcher,
    /// Fetch the project's milestones.
    FetchMilestones,
    /// Register the project on chain, paying out to the wallet, with each milestone's
    /// days after the start and funding.
    CreateChainProject { wallet: String, milestones: Vec<(u64, u64)> },
    /// Create the project's DAO.
    CreateDao,
    /// Put the milestone in progress.
    StartMilestone { id: u128 },
    /// Open the predictions of the milestones (see `prediction_windows`).
    CreatePredictions,
    /// The verdict is carried out.
    Succeed,
    /// The flow ends with the error.
    Fail { error: ApiError },
    /// The answer does not belong to this point of the flow; nothing changes.
    Ignore,
}

/// Whether the step ends the flow with the storage failure described by `message`.
pub open spec fn fails_with(r: (AdminFlow, AdminAction), message: Seq<char>) -> bool {
    r.0 is Done && (r.1 matches AdminAction::Fail { error } && is_db_error(error, message))
}

impl ProjectService {
    /// The next state and action of the flow that applies an admin's verdict, given its
    /// current state and the reply of the storage or the chain.
    pub fn admin_flow_step(state: AdminFlow, event: AdminEvent) -> (r: (AdminFlow, AdminAction))
        ensures
            match (state, event) {
                (AdminFlow::Start { verdict, to_dao }, AdminEvent::Begin) => match admin_verdict(verdict, to_dao) {
                    Some(d) => r.0 is AwaitStored && (r.1 matches AdminAction::StoreDecision { decision }
                        && decision == d),
                    None => fails_with(r, "Status should not be Pending"@),
                },
                (AdminFlow::AwaitStored, AdminEvent::Stored { status }) => match status {
                    None => fails_with(r, "Admin decision failed"@),
                    Some(code) => match admin_follow_up_of(code) {
                        AdminFollowUp::OpenDao => r.0 is AwaitResearcher && r.1 is FindResearcher,
                        AdminFollowUp::StartFunding => r.0 is AwaitFundingMilestones && r.1 is FetchMilestones,
                        AdminFollowUp::Nothing => r.0 is Done && r.1 is Succeed,
                    },
                },
                (AdminFlow::AwaitResearcher, AdminEvent::Researcher { wallet }) => match wallet {
                    None => fails_with(r, "Researcher not found"@),
                    Some(w) => if w matches Some(t) && t@.len() > 0 {
                        (r.0 matches AdminFlow::AwaitDaoMilestones { wallet: kept } && kept@ == w->0@)
                            && r.1 is FetchMilestones
                    } else {
                        fails_with(r, "Can't find the wallet address of the researcher"@)
                    },
                },
                (AdminFlow::AwaitDaoMilestones { wallet }, AdminEvent::Milestones { milestones }) => r.0 is AwaitChainProject
                    && (r.1 matches AdminAction::CreateChainProject { wallet: w, milestones: data } && w@ == wallet@
                    && data@.len() == milestones@.len() && forall|i: int|
                    0 <= i < milestones@.len() ==> #[trigger] data@[i] == (
                        milestones@[i].days_after_start as u64,
                        milestones@[i].funding_amount as u64,
                    )),
                (AdminFlow::AwaitChainProject, AdminEvent::ChainProject { error }) => match error {
                    Some(m) => fails_with(r, m@),
                    None => r.0 is AwaitDao && r.1 is CreateDao,
                },
                (AdminFlow::AwaitDao, AdminEvent::DaoCreated { created }) => if created {
                    r.0 is Done && r.1 is Succeed
                } else {
                    fails_with(r, "Create dao failed"@)
                },
                (AdminFlow::AwaitFundingMilestones, AdminEvent::Milestones { milestones }) => if milestones@.len()
                    == 0 {
                    r.0 is Done && r.1 is Succeed
                } else {
                    r.0 is AwaitFirstMilestone && (r.1 matches AdminAction::StartMilestone { id } && id
                        == milestones@[0].id)
                },
                (AdminFlow::AwaitFirstMilestone, AdminEvent::FirstMilestoneStarted { started }) => if started {
                    r.0 is AwaitPredictions && r.1 is CreatePredictions
                } else {
                    fails_with(r, "Update milestone.0 status to 'In Progress' failed"@)
                },
                (AdminFlow::AwaitPredictions, AdminEvent::PredictionsCreated) => r.0 is Done && r.1 is Succeed,
                _ => r.0 == state && r.1 is Ignore,
            },
    {
        match (state, event) {
            (AdminFlow::Start { verdict, to_dao }, AdminEvent::Begin) => match ProjectService::admin_decision(
                verdict,
                to_dao,
            ) {
                Ok(decision) => (AdminFlow::AwaitStored, AdminAction::StoreDecision { decision }),
                Err(error) => (AdminFlow::Done, AdminAction::Fail { error }),
            },
            (AdminFlow::AwaitStored, AdminEvent::Stored { status }) => match status {
                None => (AdminFlow::Done, AdminAction::Fail { error: db_error("Admin decision failed") }),
                Some(code) => match ProjectService::admin_follow_up(code) {
                    AdminFollowUp::OpenDao => (AdminFlow::AwaitResearcher, AdminAction::FindResearcher),
                    AdminFollowUp::StartFunding => (AdminFlow::AwaitFundingMilestones, AdminAction::FetchMilestones),
                    AdminFollowUp::Nothing => (AdminFlow::Done, AdminAction::Succeed),
                },
            },
            (AdminFlow::AwaitResearcher, AdminEvent::Researcher { wallet }) => match wallet {
                None => (AdminFlow::Done, AdminAction::Fail { error: db_error("Researcher not found") }),
                Some(w) => match ProjectService::researcher_wallet(&w) {
                    Ok(kept) => (AdminFlow::AwaitDaoMilestones { wallet: kept }, AdminAction::FetchMilestones),
                    Err(error) => (AdminFlow::Done, AdminAction::Fail { error }),
                },
            },
            (AdminFlow::AwaitDaoMilestones { wallet }, AdminEvent::Milestones { milestones }) => {
                let data = ProjectService::milestone_chain_data(&milestones);
                (AdminFlow::AwaitChainProject, AdminAction::CreateChainProject { wallet, milestones: data })
            },
            (AdminFlow::AwaitChainProject, AdminEvent::ChainProject { error }) => match error {
                Some(m) => (
                    AdminFlow::Done,
                    AdminAction::Fail { error: ApiError::DbError(crate::error::DbError::Str(m)) },
                ),
                None => (AdminFlow::AwaitDao, AdminAction::CreateDao),
            },
            (AdminFlow::AwaitDao, AdminEvent::DaoCreated { created }) => if created {
                (AdminFlow::Done, AdminAction::Succeed)
            } else {
                (AdminFlow::Done, AdminAction::Fail { error: db_error("Create dao failed") })
            },
            (AdminFlow::AwaitFundingMilestones, AdminEvent::Milestones { milestones }) => {
                match ProjectService::first_milestone(&milestones) {
                    Some(id) => (AdminFlow::AwaitFirstMilestone, AdminAction::StartMilestone { id }),
                    None => (AdminFlow::Done, AdminAction::Succeed),
                }
            },
            (AdminFlow::AwaitFirstMilestone, AdminEvent::FirstMilestoneStarted { started }) => if started {
                (AdminFlow::AwaitPredictions, AdminAction::CreatePredictions)
            } else {
                (
                    AdminFlow::Done,
                    AdminAction::Fail { error: db_error("Update milestone.0 status to 'In Progress' failed") },
                )
            },
            (AdminFlow::AwaitPredictions, AdminEvent::PredictionsCreated) => (AdminFlow::Done, AdminAction::Succeed),
            (state, _) => (state, AdminAction::Ignore),
        }
    }
}

} // verus!
