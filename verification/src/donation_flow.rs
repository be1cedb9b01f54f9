//! The order in which a donation made on chain is recorded: the donor is looked up by
//! wallet, then the project by its proposal, then the project's milestones; the donation
//! is recorded on its milestone and, where that succeeded, added to the project's total.
//! Each step takes what the storage answered and says what to do next.

use vstd::prelude::*;
use crate::error::{db_error, is_db_error, ApiError};
use crate::service::ProjectService;

verus! {

/// Where the recording of a donation stands.
#[derive(Debug, Clone, Copy, PartialEq, Eq, Structural)]
pub enum DonationFlow {
    /// The donation to milestone `number` (counted from 0), not yet acted on.
    Start { number: i16 },
    /// Waiting for the donor; the milestone now counted from 1.
    AwaitUser { number: i16 },
    /// Waiting for the project.
    AwaitProject { number: i16, user: u128 },
    /// Waiting for the number of the project's milestones.
    AwaitMilestones { number: i16, user: u128, project: u128, proposal_id: i64 },
    /// Waiting for the donation to be recorded on its milestone.
    AwaitDonation { project: u128 },
    /// Waiting for the donation to be added to the project's total.
    AwaitProjectTotal,
    /// Finished.
    Done,
}

/// A project as the donation flow needs it: its id and its proposal id.
#[derive(Debug, Clone, Copy, PartialEq, Eq, Structural)]
pub struct FoundProject {
    pub id: u128,
    pub proposal_id: i64,
}

/// What the storage answered.
#[derive(Debug, Clone, Copy, PartialEq, Eq, Structural)]
pub enum DonationEvent {
    /// The flow is started.
    Begin,
    /// The donor found by wallet; `None` where there is none.
    User { user: Option<u128> },
    /// The project found by proposal; `None` where there is none.
    Project { project: Option<FoundProject> },
    /// How many milestones the project has.
    Milestones { count: usize },
    /// Whether the donation was recorded on its milestone.
    Donated { recorded: bool },
    /// The project's total was updated (whatever the outcome).
    ProjectTotalUpdated,
}

/// What to do next.
#[derive(Debug, Clone)]
pub enum DonationAction {
    /// Look up the donor by wallet.
    FindUser,
    /// Look up the project by proposal.
    FindProject,
    /// Count the project's milestones.
    FetchMilestones { project: u128 },
    /// Record the donation of the user on milestone `number` (counted from 1).
    RecordDonation { user: u128, project: u128, proposal_id: i64, number: i16 },
    /// Add the donation to the project's total.
    AddToProject { project: u128 },
    /// The donation is recorded.
    Succeed,
    /// The flow ends with the error.
    Fail { error: ApiError },
    /// The answer does not belong to this point of the flow; nothing changes.
    Ignore,
}

/// Whether the step ends the flow with the storage failure described by `message`.
pub open spec fn donation_fails_with(r: (DonationFlow, DonationAction), message: Seq<char>) -> bool {
    r.0 is Done && (r.1 matches DonationAction::Fail { error } && is_db_error(error, message))
}

impl ProjectService {
    /// One step of recording a donation: from where the flow stands and what was
    /// answered, where it stands next and what to do. A donation to the last possible
    /// milestone number is not taken, as counting it from 1 would overflow.
    pub fn donation_flow_step(state: DonationFlow, event: DonationEvent) -> (r: (DonationFlow, DonationAction))
        requires
            state matches DonationFlow::Start { number } ==> number < i16::MAX,
        ensures
            match (state, event) {
                (DonationFlow::Start { number }, DonationEvent::Begin) => r.0 == DonationFlow::AwaitUser {
                    number: (number + 1) as i16,
                } && r.1 is FindUser,
                (DonationFlow::AwaitUser { number }, DonationEvent::User { user }) => match user {
                    None => donation_fails_with(r, "User not found"@),
                    Some(u) => r.0 == DonationFlow::AwaitProject { number, user: u } && r.1 is FindProject,
                },
                (DonationFlow::AwaitProject { number, user }, DonationEvent::Project { project }) => match project {
                    None => donation_fails_with(r, "Project not found"@),
                    Some(p) => r.0 == DonationFlow::AwaitMilestones {
                        number,
                        user,
                        project: p.id,
                        proposal_id: p.proposal_id,
                    } && (r.1 matches DonationAction::FetchMilestones { project: q } && q == p.id),
                },
                (
                    DonationFlow::AwaitMilestones { number, user, project, proposal_id },
                    DonationEvent::Milestones { count },
                ) => if count < number as usize {
                    donation_fails_with(r, "Milestone not found"@)
                } else {
                    r.0 == DonationFlow::AwaitDonation { project } && (r.1 matches DonationAction::RecordDonation {
                        user: u,
                        project: q,
                        proposal_id: pr,
                        number: n,
                    } && u == user && q == project && pr == proposal_id && n == number)
                },
                (DonationFlow::AwaitDonation { project }, DonationEvent::Donated { recorded }) => if recorded {
                    r.0 == DonationFlow::AwaitProjectTotal && (r.1 matches DonationAction::AddToProject { project: q }
                        && q == project)
                } else {
                    r.0 == DonationFlow::Done && r.1 is Succeed
                },
                (DonationFlow::AwaitProjectTotal, DonationEvent::ProjectTotalUpdated) => r.0 == DonationFlow::Done
                    && r.1 is Succeed,
                _ => r.0 == state && r.1 is Ignore,
            },
    {
        match (state, event) {
            (DonationFlow::Start { number }, DonationEvent::Begin) => (
                DonationFlow::AwaitUser { number: number + 1 },
                DonationAction::FindUser,
            ),
            (DonationFlow::AwaitUser { number }, DonationEvent::User { user }) => match user {
                None => (DonationFlow::Done, DonationAction::Fail { error: db_error("User not found") }),
                Some(u) => (DonationFlow::AwaitProject { number, user: u }, DonationAction::FindProject),
            },
            (DonationFlow::AwaitProject { number, user }, DonationEvent::Project { project }) => match project {
                None => (DonationFlow::Done, DonationAction::Fail { error: db_error("Project not found") }),
                Some(p) => (
                    DonationFlow::AwaitMilestones { number, user, project: p.id, proposal_id: p.proposal_id },
                    DonationAction::FetchMilestones { project: p.id },
                ),
            },
            (
                DonationFlow::AwaitMilestones { number, user, project, proposal_id },
                DonationEvent::Milestones { count },
            ) => {
                if count < number as usize {
                    (DonationFlow::Done, DonationAction::Fail { error: db_error("Milestone not found") })
                } else {
                    (
                        DonationFlow::AwaitDonation { project },
                        DonationAction::RecordDonation { user, project, proposal_id, number },
                    )
                }
            },
            (DonationFlow::AwaitDonation { project }, DonationEvent::Donated { recorded }) => if recorded {
                (DonationFlow::AwaitProjectTotal, DonationAction::AddToProject { project })
            } else {
                (DonationFlow::Done, DonationAction::Succeed)
            },
            (DonationFlow::AwaitProjectTotal, DonationEvent::ProjectTotalUpdated) => (
                DonationFlow::Done,
                DonationAction::Succeed,
            ),
            (state, _) => (state, DonationAction::Ignore),
        }
    }
}

} // verus!
