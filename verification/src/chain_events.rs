//! What the chain watcher does with the events of the DAO and funding contracts: which
//! blocks it reads, what each event is recorded as, and which block it remembers.
//!
//! Contract values arrive here already read as machine integers; addresses arrive as
//! the text the chain client writes for them.

use vstd::prelude::*;
use crate::parse::{digits_value, parse_u64, parsed_u64_value};
use crate::service::PredictionPlacementService;
use crate::text::{append_digits, digits};

verus! {

/// An event of the DAO contract.
#[derive(Debug, Clone)]
pub enum DaoEvent {
    /// A vote on a project's proposal, with the voter's weight in the token's smallest
    /// unit.
    Voted { project_id: u64, voter: String, support: bool, weight: u128 },
    /// The end of a project's vote: whether it goes on to funding.
    ProjectApproved { project_id: u64, proceeded_to_funding: bool },
    Other,
}

/// An event of the funding contract.
#[derive(Debug, Clone)]
pub enum FundingEvent {
    /// A donation to a milestone (counted from 0), in the token's smallest unit.
    Donated { project_id: u64, milestone_index: u32, donor: String, amount: u128 },
    /// A prediction placed on a milestone, with the amount staked.
    PredictionPlaced {
        user: String,
        project_id: u64,
        milestone_index: u64,
        predicts_success: bool,
        nerd_amount: u128,
    },
    Other,
}

/// What the watcher records for an event.
#[derive(Debug, Clone)]
pub enum ChainAction {
    SubmitDaoVote { proposal_id: i64, wallet: String, support: bool, weight: u128 },
    FinishDao { proposal_id: i64, passed: bool },
    DonateMilestone { proposal_id: i64, number: i16, wallet: String, amount: u128 },
    PlacePrediction {
        wallet: String,
        proposal_id: i64,
        milestone_index: i64,
        predicts_success: bool,
        nerd_amount: u128,
        block_number: i64,
    },
}

/// A milestone as the DAO contract records it.
#[derive(Debug, Clone, Copy, PartialEq, Eq, Structural)]
pub struct ChainMilestone {
    pub duration: u64,
    pub funding_goal: u64,
    pub prediction_deadline: u64,
}

/// The first block to read: the one after the last block read, where one is stored.
/// The stored text must be a block number below the largest.
pub fn next_from_block(stored: Option<&str>) -> (r: Option<u64>)
    requires
        match stored {
            Some(t) => parsed_u64_value(t@) matches Some(n) && n < u64::MAX,
            None => true,
        },
    ensures
        match stored {
            Some(t) => r == Some((parsed_u64_value(t@)->0 + 1) as u64),
            None => r is None,
        },
{
    match stored {
        Some(t) => match parse_u64(t) {
            Some(n) => Some(n + 1),
            None => None,
        },
        None => None,
    }
}

/// The first block that a run reads, given the stored text: `Some(None)` where nothing
/// is stored, `Some(Some(n + 1))` where the stored text is a block number `n` below the
/// largest, and `None` for any other stored text.
pub open spec fn next_run_from(stored: Option<Seq<char>>) -> Option<Option<u64>> {
    match stored {
        Some(t) => match parsed_u64_value(t) {
            Some(n) => if n < u64::MAX {
                Some(Some((n + 1) as u64))
            } else {
                None
            },
            None => None,
        },
        None => Some(None),
    }
}

/// The stored text as a sequence of characters.
pub open spec fn stored_view(stored: Option<&str>) -> Option<Seq<char>> {
    match stored {
        Some(t) => Some(t@),
        None => None,
    }
}

/// The first block to read, where the stored text allows one: `None` where the stored
/// text is not a block number below the largest (on which `next_from_block` is not
/// defined), else the first block to read (see `next_run_from`).
pub fn try_next_from_block(stored: Option<&str>) -> (r: Option<Option<u64>>)
    ensures
        r == next_run_from(stored_view(stored)),
{
    match stored {
        Some(t) => match parse_u64(t) {
            Some(n) => {
                if n < u64::MAX {
                    Some(next_from_block(Some(t)))
                } else {
                    None
                }
            },
            None => None,
        },
        None => Some(next_from_block(None)),
    }
}

/// The blocks whose events are read: from `from` (or, without it, the 10,000 blocks
/// before `to`) up to `to`. Without `from`, `to` must be at least 10,000.
pub fn event_block_range(from: Option<u64>, to: u64) -> (r: (u64, u64))
    requires
        from is Some || to >= 10_000,
    ensures
        r.1 == to,
        r.0 == match from {
            Some(f) => f,
            None => (to - 10_000) as u64,
        },
{
    match from {
        Some(f) => (f, to),
        None => (to - 10_000, to),
    }
}

/// What a DAO event is recorded as: a vote, or the end of a project's vote; other
/// events are not recorded. The project id is the proposal id, read as `as i64` reads
/// it.
pub fn dao_event_action(ev: DaoEvent) -> (r: Option<ChainAction>)
    ensures
        match ev {
            DaoEvent::Voted { project_id, voter, support, weight } => r matches Some(
                ChainAction::SubmitDaoVote { proposal_id: p, wallet: w, support: s, weight: k },
            ) && p == project_id as i64 && w@ == voter@ && s == support && k == weight,
            DaoEvent::ProjectApproved { project_id, proceeded_to_funding } => r matches Some(
                ChainAction::FinishDao { proposal_id: p, passed },
            ) && p == project_id as i64 && passed == proceeded_to_funding,
            DaoEvent::Other => r is None,
        },
{
    match ev {
        DaoEvent::Voted { project_id, voter, support, weight } => Some(
            ChainAction::SubmitDaoVote { proposal_id: project_id as i64, wallet: voter, support, weight },
        ),
        DaoEvent::ProjectApproved { project_id, proceeded_to_funding } => Some(
            ChainAction::FinishDao { proposal_id: project_id as i64, passed: proceeded_to_funding },
        ),
        DaoEvent::Other => None,
    }
}

/// What a funding event is recorded as: a donation to a milestone, or a placed
/// prediction with the last block of the range read (0 where there is none); other
/// events are not recorded. Ids and indexes are read as `as` reads them.
pub fn funding_event_action(ev: FundingEvent, to_block: Option<u64>) -> (r: Option<ChainAction>)
    ensures
        match ev {
            FundingEvent::Donated { project_id, milestone_index, donor, amount } => r matches Some(
                ChainAction::DonateMilestone { proposal_id: p, number: n, wallet: w, amount: a },
            ) && p == project_id as i64 && n == milestone_index as i16 && w@ == donor@ && a == amount,
            FundingEvent::PredictionPlaced {
                user,
                project_id,
                milestone_index,
                predicts_success,
                nerd_amount,
            } => r matches Some(
                ChainAction::PlacePrediction {
                    wallet: w,
                    proposal_id: p,
                    milestone_index: m,
                    predicts_success: s,
                    nerd_amount: a,
                    block_number: b,
                },
            ) && w@ == user@ && p == project_id as i64 && m == milestone_index as i64 && s
                == predicts_success && a == nerd_amount && b == (match to_block {
                Some(t) => t,
                None => 0u64,
            }) as i64,
            FundingEvent::Other => r is None,
        },
{
    match ev {
        FundingEvent::Donated { project_id, milestone_index, donor, amount } => Some(
            ChainAction::DonateMilestone {
                proposal_id: project_id as i64,
                number: milestone_index as i16,
                wallet: donor,
                amount,
            },
        ),
        FundingEvent::PredictionPlaced { user, project_id, milestone_index, predicts_success, nerd_amount } => {
            let block: u64 = match to_block {
                Some(t) => t,
                None => 0,
            };
            Some(
                ChainAction::PlacePrediction {
                    wallet: user,
                    proposal_id: project_id as i64,
                    milestone_index: milestone_index as i64,
                    predicts_success,
                    nerd_amount,
                    block_number: block as i64,
                },
            )
        },
        FundingEvent::Other => None,
    }
}

/// The proposal that a finished DAO is approved under on chain (`as u64` of the stored
/// id).
pub fn approval_proposal(proposal_id: i64) -> (r: u64)
    ensures
        r == proposal_id as u64,
{
    proposal_id as u64
}

/// The block number to remember after a run: the last block read, written in decimal,
/// where there is one.
pub fn block_to_store(last: Option<u64>) -> (r: Option<String>)
    ensures
        match last {
            Some(n) => r matches Some(s) && s@ == digits(n as nat),
            None => r is None,
        },
{
    match last {
        Some(n) => {
            let mut s = String::new();
            append_digits(&mut s, n);
            assert(s@ =~= digits(n as nat));
            Some(s)
        },
        None => None,
    }
}

/// The milestones as the DAO contract records them: each one's days after the start
/// as its duration and its prediction deadline, and its funding as its goal.
pub fn chain_milestones(data: &Vec<(u64, u64)>) -> (r: Vec<ChainMilestone>)
    ensures
        r@.len() == data@.len(),
        forall|i: int| 0 <= i < data@.len() ==> #[trigger] r@[i] == (ChainMilestone {
            duration: data@[i].0,
            funding_goal: data@[i].1,
            prediction_deadline: data@[i].0,
        }),
{
    let mut r: Vec<ChainMilestone> = Vec::new();
    let mut i: usize = 0;
    while i < data.len()
        invariant
            i <= data@.len(),
            r@.len() == i,
            forall|j: int| 0 <= j < i ==> #[trigger] r@[j] == (ChainMilestone {
                duration: data@[j].0,
                funding_goal: data@[j].1,
                prediction_deadline: data@[j].0,
            }),
        decreases data.len() - i,
    {
        let (duration, goal) = data[i];
        r.push(ChainMilestone { duration, funding_goal: goal, prediction_deadline: duration });
        i = i + 1;
    }
    r
}

/// Successive runs of the chain watcher read adjacent block ranges: where a run read up
/// to block `to` (below the largest) and stored it as `block_to_store` writes it, the
/// next run reads from `to + 1`.
pub proof fn lemma_runs_read_adjacent_ranges(to: u64)
    requires
        to < u64::MAX,
    ensures
        next_run_from(Some(digits(to as nat))) == Some(Some((to + 1) as u64)),
{
    lemma_digits_value(to as nat);
}

/// Reading back a stored block number gives the number that was stored.
pub proof fn lemma_stored_block_reads_back(n: u64)
    ensures
        parsed_u64_value(digits(n as nat)) == Some(n),
{
    lemma_digits_value(n as nat);
}

pub(crate) proof fn lemma_digits_value(n: nat)
    ensures
        digits(n).len() > 0,
        digits(n)[0] != '+',
        forall|i: int| 0 <= i < digits(n).len() ==> '0' <= #[trigger] digits(n)[i] <= '9',
        digits_value(digits(n)) == n,
    decreases n,
{
    crate::text::lemma_digits_are_digits(n);
    if n >= 10 {
        lemma_digits_value(n / 10);
        let d = digits(n);
        assert(d == digits(n / 10).push(crate::text::digit_char(n % 10)));
        assert(d.drop_last() =~= digits(n / 10));
        assert(d[0] == digits(n / 10)[0]);
        let r = n % 10;
        assert(crate::text::digit_char(r) as int - '0' as int == r) by {
            assert(0 <= r < 10);
        }
        assert(d.last() == crate::text::digit_char(r));
        assert(n == (n / 10) * 10 + n % 10) by (nonlinear_arith);
        assert(digits_value(d) == digits_value(d.drop_last()) * 10 + (d.last() as int - '0' as int));
    } else {
        let d = digits(n);
        assert(d.drop_last() =~= Seq::<char>::empty());
        assert(digits_value(Seq::<char>::empty()) == 0);
        assert(crate::text::digit_char(n) as int - '0' as int == n);
        assert(d.last() == crate::text::digit_char(n));
    }
}

/// Whether a run of the chain watcher is under way, so that scheduled runs never overlap
/// and shutdown knows whether to wait for one.
#[derive(Debug)]
pub struct JobGate {
    running: bool,
}

impl JobGate {
    /// Whether a run is under way.
    pub closed spec fn is_running(&self) -> bool {
        self.running
    }

    /// A gate with no run under way.
    pub fn new() -> (g: JobGate)
        ensures
            !g.is_running(),
    {
        JobGate { running: false }
    }

    /// Starts a run where none is under way; a run that is due while another is under way
    /// is skipped.
    pub fn try_start(&mut self) -> (started: bool)
        ensures
            started == !old(self).is_running(),
            final(self).is_running(),
    {
        if self.running {
            false
        } else {
            self.running = true;
            true
        }
    }

    /// Ends the run under way.
    pub fn finish(&mut self)
        ensures
            !final(self).is_running(),
    {
        self.running = false;
    }

    /// Whether a run is under way, so that shutdown waits for it.
    pub fn is_busy(&self) -> (busy: bool)
        ensures
            busy == self.is_running(),
    {
        self.running
    }
}

/// What happens to the chain watcher's scheduler: a scheduled tick, the end of a run
/// (whether it succeeded or failed), or a request to shut down.
#[derive(Debug, Clone, Copy, PartialEq, Eq, Structural)]
pub enum JobEvent {
    Tick,
    RunEnded { ok: bool },
    ShutdownRequested,
}

/// What the scheduler does next: start a run, skip the tick (a run is under way), clear
/// the flag and notify whoever waits for the run's end, wait for the run under way (at
/// most the given number of seconds) before shutting down, or shut down at once.
#[derive(Debug, Clone, Copy, PartialEq, Eq, Structural)]
pub enum JobAction {
    StartRun,
    SkipTick,
    ClearAndNotify,
    WaitForRun { max_seconds: u64 },
    ShutDown,
}

/// The scheduler's step: from whether a run is under way and what happened, whether a
/// run is under way after it and what to do.
pub open spec fn job_step(running: bool, event: JobEvent) -> (bool, JobAction) {
    match event {
        JobEvent::Tick => if running {
            (true, JobAction::SkipTick)
        } else {
            (true, JobAction::StartRun)
        },
        JobEvent::RunEnded { .. } => (false, JobAction::ClearAndNotify),
        JobEvent::ShutdownRequested => if running {
            (true, JobAction::WaitForRun { max_seconds: 300 })
        } else {
            (false, JobAction::ShutDown)
        },
    }
}

/// Whether a run is under way after the events, starting with none.
pub open spec fn job_running_after(events: Seq<JobEvent>) -> bool
    decreases events.len(),
{
    if events.len() == 0 {
        false
    } else {
        job_step(job_running_after(events.drop_last()), events.last()).0
    }
}

/// What the scheduler does on the event at `i`.
pub open spec fn job_action_at(events: Seq<JobEvent>, i: int) -> JobAction {
    job_step(job_running_after(events.take(i)), events[i]).1
}

proof fn lemma_job_running_after_take(events: Seq<JobEvent>, m: int)
    requires
        0 < m <= events.len(),
    ensures
        job_running_after(events.take(m)) == job_step(job_running_after(events.take(m - 1)), events[m - 1]).0,
{
    assert(events.take(m).drop_last() =~= events.take(m - 1));
}

proof fn lemma_job_stays_running(events: Seq<JobEvent>, i: int, m: int)
    requires
        0 <= i < m <= events.len(),
        job_action_at(events, i) == JobAction::StartRun,
        forall|k: int| i < k < m ==> !(#[trigger] events[k] is RunEnded),
    ensures
        job_running_after(events.take(m)),
    decreases m - i,
{
    lemma_job_running_after_take(events, m);
    if m > i + 1 {
        lemma_job_stays_running(events, i, m - 1);
        assert(!(events[m - 1] is RunEnded));
    }
}

/// Runs never overlap: between two ticks that start a run, the first run ends.
pub proof fn lemma_job_runs_never_overlap(events: Seq<JobEvent>, i: int, j: int)
    requires
        0 <= i < j < events.len(),
        job_action_at(events, i) == JobAction::StartRun,
        job_action_at(events, j) == JobAction::StartRun,
    ensures
        exists|k: int| i < k < j && #[trigger] events[k] is RunEnded,
{
    if forall|k: int| i < k < j ==> !(#[trigger] events[k] is RunEnded) {
        lemma_job_stays_running(events, i, j);
    }
}

/// The flag is set exactly while a run is under way: after the events, it is set if and
/// only if some tick started a run that has not ended since.
pub proof fn lemma_job_flag_means_run_under_way(events: Seq<JobEvent>)
    ensures
        job_running_after(events) <==> exists|i: int|
            0 <= i < events.len() && #[trigger] job_action_at(events, i) == JobAction::StartRun
                && forall|k: int| i < k < events.len() ==> !(#[trigger] events[k] is RunEnded),
    decreases events.len(),
{
    let n = events.len() as int;
    if n > 0 {
        let rest = events.drop_last();
        lemma_job_flag_means_run_under_way(rest);
        assert(events.take(n) =~= events);
        lemma_job_running_after_take(events, n);
        assert(events.take(n - 1) =~= rest);
        assert forall|i: int| 0 <= i < n - 1 implies job_action_at(events, i) == job_action_at(rest, i) by {
            assert(events.take(i) =~= rest.take(i));
        }
        if job_running_after(events) {
            if events.last() is Tick && !job_running_after(rest) {
                assert(job_action_at(events, n - 1) == JobAction::StartRun);
            } else {
                let i = choose|i: int|
                    0 <= i < rest.len() && #[trigger] job_action_at(rest, i) == JobAction::StartRun
                        && forall|k: int| i < k < rest.len() ==> !(#[trigger] rest[k] is RunEnded);
                assert(job_action_at(events, i) == JobAction::StartRun);
                assert forall|k: int| i < k < n implies !(#[trigger] events[k] is RunEnded) by {
                    if k < n - 1 {
                        assert(events[k] == rest[k]);
                    }
                }
            }
        } else {
            assert forall|i: int|
                0 <= i < n && #[trigger] job_action_at(events, i) == JobAction::StartRun implies exists|k: int|
                    i < k < n && #[trigger] events[k] is RunEnded by {
                if i == n - 1 {
                    lemma_job_running_after_take(events, n);
                } else if !(events[n - 1] is RunEnded) {
                    assert(job_action_at(rest, i) == JobAction::StartRun);
                    if forall|k: int| i < k < n - 1 ==> !(#[trigger] rest[k] is RunEnded) {
                        lemma_job_stays_running(rest, i, n - 1);
                        assert(rest.take(n - 1) =~= rest);
                    }
                    let k = choose|k: int| i < k < n - 1 && #[trigger] rest[k] is RunEnded;
                    assert(events[k] == rest[k]);
                }
            }
        }
    }
}

/// Every run that ends, whether it succeeded or failed, clears the flag and notifies
/// whoever waits for it; a shutdown while a run is under way waits for it for at most
/// five minutes.
pub proof fn lemma_job_run_end_clears_and_notifies(events: Seq<JobEvent>, i: int)
    requires
        0 <= i < events.len(),
    ensures
        events[i] is RunEnded ==> job_action_at(events, i) == JobAction::ClearAndNotify && !job_running_after(
            events.take(i + 1),
        ),
        events[i] is ShutdownRequested ==> job_action_at(events, i) == (if job_running_after(events.take(i)) {
            JobAction::WaitForRun { max_seconds: 300 }
        } else {
            JobAction::ShutDown
        }),
{
    lemma_job_running_after_take(events, i + 1);
}

impl JobGate {
    /// The scheduler's step on an event (see `job_step`).
    pub fn step(&mut self, event: JobEvent) -> (action: JobAction)
        ensures
            (final(self).is_running(), action) == job_step(old(self).is_running(), event),
    {
        match event {
            JobEvent::Tick => {
                if self.try_start() {
                    JobAction::StartRun
                } else {
                    JobAction::SkipTick
                }
            },
            JobEvent::RunEnded { .. } => {
                self.finish();
                JobAction::ClearAndNotify
            },
            JobEvent::ShutdownRequested => {
                if self.is_busy() {
                    JobAction::WaitForRun { max_seconds: 300 }
                } else {
                    JobAction::ShutDown
                }
            },
        }
    }
}

impl PredictionPlacementService {
    /// The milestone number (counted from 1) under which a prediction placed on chain on
    /// milestone `milestone_index` (counted from 0) is stored; none where the wallet has
    /// already placed one on that milestone.
    pub fn placement_milestone(milestone_index: i64, already_placed: bool) -> (r: Option<i64>)
        requires
            milestone_index < i64::MAX,
        ensures
            already_placed ==> r is None,
            !already_placed ==> r == Some((milestone_index + 1) as i64),
    {
        if already_placed {
            return None;
        }
        Some(milestone_index + 1)
    }
}

} // verus!
