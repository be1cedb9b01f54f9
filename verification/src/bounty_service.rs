//! Decisions of the bounty service: chat numbers between a bounty's funder and its
//! bidders, and the checks and status changes of reviews, bids and submissions.

use vstd::prelude::*;
use crate::error::{db_error, is_db_error, ApiError};
use crate::ids::{
    chat_number_bidder, chat_number_of, count_char, lemma_chat_number_bidder, parse_uuid,
    split_on, uuid_to_text,
};
use crate::bounty::{BidStatus, BountyReviewType, BountyStatus, BountySubmissionStatus};
use crate::calendar::{is_chrono_date, us_date_reading, CalendarDate};
use crate::service::BountyService;
use crate::text::push_char;

verus! {

impl BountyService {
    /// The chat number between the funder of the bounty with nerd id `nerd_id` and a
    /// bidder: the nerd id, a hyphen, and the bidder's UUID. Where the nerd id has two
    /// hyphens, as the nerd ids of bounties do, the bidder can be read back from it.
    pub fn generate_chat_number(&self, nerd_id: &str, bidder_id: u128) -> (chat: String)
        ensures
            chat@ == chat_number_of(nerd_id@, bidder_id),
            count_char(nerd_id@, '-') == 2 ==> chat_number_bidder(chat@) == Some(bidder_id),
    {
        let mut chat = String::from_str(nerd_id);
        push_char(&mut chat, '-');
        let bidder = uuid_to_text(bidder_id);
        chat.append(bidder.as_str());
        proof {
            if count_char(nerd_id@, '-') == 2 {
                lemma_chat_number_bidder(nerd_id@, bidder_id);
            }
        }
        chat
    }

    /// Reads the bidder back from a chat number: the pieces after the third hyphen must
    /// form a UUID.
    pub fn extract_bidder_id_from_chat_number(&self, chat_number: &str) -> (r: Result<u128, ApiError>)
        ensures
            split_on(chat_number@, '-').len() < 5 ==> (r matches Err(e) && is_db_error(
                e,
                "Invalid chat number format"@,
            )),
            split_on(chat_number@, '-').len() >= 5 ==> match chat_number_bidder(chat_number@) {
                Some(id) => r matches Ok(v) && v == id,
                None => r matches Err(e) && is_db_error(
                    e,
                    "Invalid chat number format: cannot extract bidder ID"@,
                ),
            },
    {
        let parts = crate::ids::split_chars(chat_number, '-');
        if parts.len() >= 5 {
            let uuid_text = crate::ids::join_from(&parts, 3, '-');
            proof {
                let want = split_on(chat_number@, '-').skip(3);
                let got = parts@.skip(3).map_values(|p: Vec<char>| p@);
                assert(got =~= want);
            }
            match parse_uuid(uuid_text.as_str()) {
                Some(id) => Ok(id),
                None => Err(db_error("Invalid chat number format: cannot extract bidder ID")),
            }
        } else {
            Err(db_error("Invalid chat number format"))
        }
    }
}

/// What an admin's review does to a bounty: its new status, and whether the approval or
/// the rejection is stamped with the current time.
#[derive(Debug, Clone, Copy, PartialEq, Eq, Structural)]
pub struct BountyReviewDecision {
    pub status: BountyStatus,
    pub stamps_approval: bool,
    pub stamps_rejection: bool,
}

/// What a review does to a bounty awaiting approval: approval opens it, a request for
/// revision sends it back, rejection rejects it.
pub open spec fn bounty_review_of(review: BountyReviewType) -> BountyReviewDecision {
    match review {
        BountyReviewType::Approve => BountyReviewDecision {
            status: BountyStatus::Open,
            stamps_approval: true,
            stamps_rejection: false,
        },
        BountyReviewType::RequestRevision => BountyReviewDecision {
            status: BountyStatus::RequestRevision,
            stamps_approval: false,
            stamps_rejection: false,
        },
        BountyReviewType::Reject => BountyReviewDecision {
            status: BountyStatus::Rejected,
            stamps_approval: false,
            stamps_rejection: true,
        },
    }
}

/// The date that a deadline written as month, day and year (`%m/%d/%Y`) names, or
/// chrono's description of why it names none.
pub uninterp spec fn deadline_date(text: Seq<char>) -> Result<CalendarDate, Seq<char>>;

/// Parses a deadline written as month, day and year (`chrono::NaiveDate::parse_from_str`
/// with `%m/%d/%Y`), giving its year, month and day (`Datelike::year`, `month`, `day`),
/// or the text of chrono's parse error. The contract claims that the result is the one
/// that `deadline_date` names for the text; that it is a date that exists and lies in
/// the years chrono's dates cover (a `NaiveDate` is never anything else); and that a
/// date that chrono can hold, written as `%m/%d/%Y` writes it (two-digit month and day, a
/// year of four digits or with a sign), is read back as that date: chrono's parser reads
/// two digits for the month and the day, four digits for an unsigned year and any number
/// after a sign, and checks that the date exists.
#[verifier::external_body]
fn parse_deadline(text: &str) -> (r: Result<CalendarDate, String>)
    ensures
        match deadline_date(text@) {
            Ok(d) => r == Ok::<CalendarDate, String>(d) && is_chrono_date(d),
            Err(m) => r matches Err(e) && e@ == m,
        },
        match us_date_reading(text@) {
            Some(d) => r == Ok::<CalendarDate, String>(d),
            None => true,
        },
{
    match chrono::NaiveDate::parse_from_str(text, "%m/%d/%Y") {
        Ok(date) => Ok(CalendarDate {
            year: chrono::Datelike::year(&date),
            month: chrono::Datelike::month(&date),
            day: chrono::Datelike::day(&date),
        }),
        Err(e) => Err(e.to_string()),
    }
}

/// How many of the attempts to create a milestone succeeded.
pub open spec fn created_count(outcomes: Seq<bool>) -> int
    decreases outcomes.len(),
{
    if outcomes.len() == 0 {
        0
    } else {
        created_count(outcomes.drop_last()) + if outcomes.last() {
            1int
        } else {
            0int
        }
    }
}

/// The number under which attempt `i` is made, numbering from 1 and moving on as
/// `next_milestone_number` does: one more than the attempts before it that succeeded.
pub open spec fn attempt_number(outcomes: Seq<bool>, i: int) -> int {
    1 + created_count(outcomes.take(i))
}

/// The numbers of the milestones that were created, in the order of the attempts.
pub open spec fn created_numbers(outcomes: Seq<bool>) -> Seq<int>
    decreases outcomes.len(),
{
    if outcomes.len() == 0 {
        seq![]
    } else if outcomes.last() {
        created_numbers(outcomes.drop_last()).push(attempt_number(outcomes, outcomes.len() - 1))
    } else {
        created_numbers(outcomes.drop_last())
    }
}

/// The milestones that are created get the numbers 1, 2, 3, ... in order, whichever
/// attempts fail in between: a number moves on only when a milestone was created.
pub proof fn lemma_created_milestones_numbered_in_order(outcomes: Seq<bool>)
    ensures
        created_numbers(outcomes) == Seq::new(created_count(outcomes) as nat, |i: int| i + 1),
    decreases outcomes.len(),
{
    if outcomes.len() > 0 {
        let rest = outcomes.drop_last();
        lemma_created_milestones_numbered_in_order(rest);
        assert(outcomes.take(outcomes.len() - 1) =~= rest);
        lemma_created_count_nonneg(rest);
        assert(created_numbers(outcomes) =~= Seq::new(created_count(outcomes) as nat, |i: int| i + 1));
    }
}

proof fn lemma_created_count_nonneg(outcomes: Seq<bool>)
    ensures
        created_count(outcomes) >= 0,
    decreases outcomes.len(),
{
    if outcomes.len() > 0 {
        lemma_created_count_nonneg(outcomes.drop_last());
    }
}

impl BountyService {
    /// The date of a bounty's deadline, written as month, day and year; a deadline that
    /// does not parse is refused with chrono's description. A date written as a bounty's
    /// information writes it (`us_date_text`) is read back as that date (see
    /// `lemma_us_date_reads_back`).
    pub fn bounty_deadline(text: &str) -> (r: Result<CalendarDate, ApiError>)
        ensures
            match deadline_date(text@) {
                Ok(d) => r == Ok::<CalendarDate, ApiError>(d) && is_chrono_date(d),
                Err(m) => r matches Err(e) && is_db_error(e, m),
            },
            match us_date_reading(text@) {
                Some(d) => r == Ok::<CalendarDate, ApiError>(d),
                None => true,
            },
    {
        match parse_deadline(text) {
            Ok(d) => Ok(d),
            Err(m) => Err(ApiError::DbError(crate::error::DbError::Str(m))),
        }
    }

    /// What an admin's review does to a bounty; only a bounty awaiting approval can be
    /// reviewed.
    pub fn review_decision(review: BountyReviewType, current: BountyStatus) -> (r: Result<BountyReviewDecision, ApiError>)
        ensures
            current == BountyStatus::PendingApproval ==> r == Ok::<BountyReviewDecision, ApiError>(bounty_review_of(review)),
            current != BountyStatus::PendingApproval ==> (r matches Err(e) && is_db_error(
                e,
                "The status of this bounty is not PendingApproval"@,
            )),
    {
        let decision = match review {
            BountyReviewType::Approve => BountyReviewDecision {
                status: BountyStatus::Open,
                stamps_approval: true,
                stamps_rejection: false,
            },
            BountyReviewType::RequestRevision => BountyReviewDecision {
                status: BountyStatus::RequestRevision,
                stamps_approval: false,
                stamps_rejection: false,
            },
            BountyReviewType::Reject => BountyReviewDecision {
                status: BountyStatus::Rejected,
                stamps_approval: false,
                stamps_rejection: true,
            },
        };
        if current != BountyStatus::PendingApproval {
            return Err(db_error("The status of this bounty is not PendingApproval"));
        }
        Ok(decision)
    }

    /// The status that a bounty takes once its work submission is reviewed: completed
    /// where the work is approved, back in progress where it is rejected, awaiting a
    /// revision where one is asked for, and unchanged otherwise.
    pub open spec fn status_after_work_review(review: BountySubmissionStatus, current: BountyStatus) -> BountyStatus {
        match review {
            BountySubmissionStatus::Approved => BountyStatus::Completed,
            BountySubmissionStatus::Rejected => BountyStatus::InProgress,
            BountySubmissionStatus::RequestRevision => BountyStatus::RequestRevision,
            _ => current,
        }
    }

    /// The status to store for a bounty after the review of its work submission (see
    /// `status_after_work_review`), or `None` where the status stays as it is and nothing
    /// is stored.
    pub fn bounty_status_after_review(review: BountySubmissionStatus, current: BountyStatus) -> (r: Option<
        BountyStatus,
    >)
        ensures
            Self::status_after_work_review(review, current) != current ==> r == Some(
                Self::status_after_work_review(review, current),
            ),
            Self::status_after_work_review(review, current) == current ==> r is None,
    {
        let next = match review {
            BountySubmissionStatus::Approved => BountyStatus::Completed,
            BountySubmissionStatus::Rejected => BountyStatus::InProgress,
            BountySubmissionStatus::RequestRevision => BountyStatus::RequestRevision,
            _ => current,
        };
        if next != current {
            Some(next)
        } else {
            None
        }
    }

    /// The number under which the next milestone of a bounty or bid is created: one more
    /// once a milestone was created under `number`, the same where creating it failed.
    pub fn next_milestone_number(number: i16, created: bool) -> (next: i16)
        requires
            created ==> number < i16::MAX,
        ensures
            next == (if created {
                number + 1
            } else {
                number as int
            }),
    {
        if created {
            number + 1
        } else {
            number
        }
    }

    /// Bids are taken only on open bounties.
    pub fn check_bid_allowed(status: BountyStatus) -> (r: Result<(), ApiError>)
        ensures
            status == BountyStatus::Open ==> r is Ok,
            status != BountyStatus::Open ==> (r matches Err(e) && is_db_error(
                e,
                "Can't bid on this bounty because its status is not opened"@,
            )),
    {
        if status != BountyStatus::Open {
            return Err(db_error("Can't bid on this bounty because its status is not opened"));
        }
        Ok(())
    }

    /// The status that a bounty takes when one of its bids wins: in progress. The bid's
    /// author must be the bounty's owner (`bounty_owner` against `bidder`), and the
    /// bounty must be open.
    pub fn winner_selection(bounty_owner: u128, bidder: u128, status: BountyStatus) -> (r: Result<BountyStatus, ApiError>)
        ensures
            bounty_owner != bidder ==> (r matches Err(e) && is_db_error(e, "You are not the owner of this bounty"@)),
            bounty_owner == bidder && status != BountyStatus::Open ==> (r matches Err(e) && is_db_error(
                e,
                "The bounty is not open"@,
            )),
            bounty_owner == bidder && status == BountyStatus::Open ==> r == Ok::<BountyStatus, ApiError>(
                BountyStatus::InProgress,
            ),
    {
        if bounty_owner != bidder {
            return Err(db_error("You are not the owner of this bounty"));
        }
        if status != BountyStatus::Open {
            return Err(db_error("The bounty is not open"));
        }
        Ok(BountyStatus::InProgress)
    }

    /// Work may be submitted only by the author of the bid, and only for an accepted bid.
    pub fn check_work_submitter(bid_owner: u128, user_id: u128, bid_status: BidStatus) -> (r: Result<(), ApiError>)
        ensures
            bid_owner != user_id ==> (r matches Err(e) && is_db_error(e, "You can only submit work for your own bid"@)),
            bid_owner == user_id && bid_status != BidStatus::Accepted ==> (r matches Err(e) && is_db_error(
                e,
                "You can only submit work for accepted bids"@,
            )),
            bid_owner == user_id && bid_status == BidStatus::Accepted ==> r is Ok,
    {
        if bid_owner != user_id {
            return Err(db_error("You can only submit work for your own bid"));
        }
        if bid_status != BidStatus::Accepted {
            return Err(db_error("You can only submit work for accepted bids"));
        }
        Ok(())
    }

    /// A bid gets one work submission only.
    pub fn check_no_work_submission(exists: bool) -> (r: Result<(), ApiError>)
        ensures
            !exists ==> r is Ok,
            exists ==> (r matches Err(e) && is_db_error(e, "Work submission already exists for this bid"@)),
    {
        if exists {
            return Err(db_error("Work submission already exists for this bid"));
        }
        Ok(())
    }

    /// A work submission may be finalized only by its author; once it is, the bounty goes
    /// under review.
    pub fn finalize_check(submission_owner: u128, user_id: u128) -> (r: Result<BountyStatus, ApiError>)
        ensures
            submission_owner == user_id ==> r == Ok::<BountyStatus, ApiError>(BountyStatus::UnderReview),
            submission_owner != user_id ==> (r matches Err(e) && is_db_error(
                e,
                "You can only finalize your own work submission"@,
            )),
    {
        if submission_owner != user_id {
            return Err(db_error("You can only finalize your own work submission"));
        }
        Ok(BountyStatus::UnderReview)
    }
}

/// A review takes effect only on a bounty awaiting approval, and stamps approval exactly
/// when it opens the bounty and rejection exactly when it rejects it.
pub proof fn lemma_review_stamps(review: BountyReviewType)
    ensures
        bounty_review_of(review).stamps_approval <==> bounty_review_of(review).status == BountyStatus::Open,
        bounty_review_of(review).stamps_rejection <==> bounty_review_of(review).status == BountyStatus::Rejected,
        bounty_review_of(review).status != BountyStatus::PendingApproval,
{
}

} // verus!
