//! Bounties posted by funders, the bids that researchers place on them, and their
//! stored status codes.

use vstd::prelude::*;

verus! {

/// Life cycle of a bounty, from admin approval to completion.
#[derive(Debug, Clone, Copy, PartialEq, Eq, Structural)]
pub enum BountyStatus {
    PendingApproval,
    Open,
    Rejected,
    InProgress,
    UnderReview,
    Completed,
    Cancelled,
    RequestRevision,
}

/// The small integer under which a value is stored.
pub open spec fn bounty_status_code(v: BountyStatus) -> i16 {
    match v {
        BountyStatus::PendingApproval => 0,
        BountyStatus::Open => 1,
        BountyStatus::Rejected => 2,
        BountyStatus::InProgress => 3,
        BountyStatus::UnderReview => 4,
        BountyStatus::Completed => 5,
        BountyStatus::Cancelled => 6,
        BountyStatus::RequestRevision => 7,
    }
}

/// The value stored under a code, if the code is one of `0..=7`.
pub open spec fn bounty_status_of_code(code: i16) -> Option<BountyStatus> {
    if code == 0 {
        Some(BountyStatus::PendingApproval)
    } else if code == 1 {
        Some(BountyStatus::Open)
    } else if code == 2 {
        Some(BountyStatus::Rejected)
    } else if code == 3 {
        Some(BountyStatus::InProgress)
    } else if code == 4 {
        Some(BountyStatus::UnderReview)
    } else if code == 5 {
        Some(BountyStatus::Completed)
    } else if code == 6 {
        Some(BountyStatus::Cancelled)
    } else if code == 7 {
        Some(BountyStatus::RequestRevision)
    } else {
        None
    }
}

impl From<BountyStatus> for i16 {
    fn from(value: BountyStatus) -> (code: i16) {
        match value {
            BountyStatus::PendingApproval => 0,
            BountyStatus::Open => 1,
            BountyStatus::Rejected => 2,
            BountyStatus::InProgress => 3,
            BountyStatus::UnderReview => 4,
            BountyStatus::Completed => 5,
            BountyStatus::Cancelled => 6,
            BountyStatus::RequestRevision => 7,
        }
    }
}

impl vstd::std_specs::convert::FromSpecImpl<BountyStatus> for i16 {
    open spec fn obeys_from_spec() -> bool {
        true
    }

    open spec fn from_spec(v: BountyStatus) -> i16 {
        bounty_status_code(v)
    }
}

impl BountyStatus {
    /// Reads a value back from its stored code; other codes are refused with a message
    /// naming the type.
    pub fn try_from(value: i16) -> (r: Result<Self, String>)
        ensures
            bounty_status_of_code(value) matches Some(v) ==> r == Ok::<Self, String>(v),
            bounty_status_of_code(value) is None ==> (r matches Err(e) && e@ == "Invalid value for BountyStatus"@),
    {
        match value {
            0 => Ok(Self::PendingApproval),
            1 => Ok(Self::Open),
            2 => Ok(Self::Rejected),
            3 => Ok(Self::InProgress),
            4 => Ok(Self::UnderReview),
            5 => Ok(Self::Completed),
            6 => Ok(Self::Cancelled),
            7 => Ok(Self::RequestRevision),
            _ => Err(String::from_str("Invalid value for BountyStatus")),
        }
    }
}

/// A value read back from its stored code is the value that was stored, and every code
/// in `0..=7` is the code of the value read from it.
pub proof fn lemma_bounty_status_codes(v: BountyStatus, code: i16)
    ensures
        bounty_status_of_code(bounty_status_code(v)) == Some(v),
        0 <= bounty_status_code(v) <= 7,
        bounty_status_of_code(code) matches Some(w) ==> bounty_status_code(w) == code,
        bounty_status_of_code(code) is Some <==> 0 <= code <= 7,
{
}

/// Verdict of an admin on a bounty that awaits approval.
#[derive(Debug, Clone, Copy, PartialEq, Eq, Structural)]
pub enum BountyReviewType {
    Approve,
    RequestRevision,
    Reject,
}

/// The small integer under which a value is stored.
pub open spec fn bounty_review_type_code(v: BountyReviewType) -> i16 {
    match v {
        BountyReviewType::Approve => 0,
        BountyReviewType::RequestRevision => 1,
        BountyReviewType::Reject => 2,
    }
}

/// The value stored under a code, if the code is one of `0..=2`.
pub open spec fn bounty_review_type_of_code(code: i16) -> Option<BountyReviewType> {
    if code == 0 {
        Some(BountyReviewType::Approve)
    } else if code == 1 {
        Some(BountyReviewType::RequestRevision)
    } else if code == 2 {
        Some(BountyReviewType::Reject)
    } else {
        None
    }
}

impl From<BountyReviewType> for i16 {
    fn from(value: BountyReviewType) -> (code: i16) {
        match value {
            BountyReviewType::Approve => 0,
            BountyReviewType::RequestRevision => 1,
            BountyReviewType::Reject => 2,
        }
    }
}

impl vstd::std_specs::convert::FromSpecImpl<BountyReviewType> for i16 {
    open spec fn obeys_from_spec() -> bool {
        true
    }

    open spec fn from_spec(v: BountyReviewType) -> i16 {
        bounty_review_type_code(v)
    }
}

impl BountyReviewType {
    /// Reads a value back from its stored code; other codes are refused with a message
    /// naming the type.
    pub fn try_from(value: i16) -> (r: Result<Self, String>)
        ensures
            bounty_review_type_of_code(value) matches Some(v) ==> r == Ok::<Self, String>(v),
            bounty_review_type_of_code(value) is None ==> (r matches Err(e) && e@ == "Invalid value for BountyReviewType"@),
    {
        match value {
            0 => Ok(Self::Approve),
            1 => Ok(Self::RequestRevision),
            2 => Ok(Self::Reject),
            _ => Err(String::from_str("Invalid value for BountyReviewType")),
        }
    }
}

/// A value read back from its stored code is the value that was stored, and every code
/// in `0..=2` is the code of the value read from it.
pub proof fn lemma_bounty_review_type_codes(v: BountyReviewType, code: i16)
    ensures
        bounty_review_type_of_code(bounty_review_type_code(v)) == Some(v),
        0 <= bounty_review_type_code(v) <= 2,
        bounty_review_type_of_code(code) matches Some(w) ==> bounty_review_type_code(w) == code,
        bounty_review_type_of_code(code) is Some <==> 0 <= code <= 2,
{
}

/// How demanding the work of a bounty is.
#[derive(Debug, Clone, Copy, PartialEq, Eq, Structural)]
pub enum BountyDifficulty {
    Beginner,
    Intermediate,
    Advanced,
    Expert,
}

/// The small integer under which a value is stored.
pub open spec fn bounty_difficulty_code(v: BountyDifficulty) -> i16 {
    match v {
        BountyDifficulty::Beginner => 0,
        BountyDifficulty::Intermediate => 1,
        BountyDifficulty::Advanced => 2,
        BountyDifficulty::Expert => 3,
    }
}

/// The value stored under a code, if the code is one of `0..=3`.
pub open spec fn bounty_difficulty_of_code(code: i16) -> Option<BountyDifficulty> {
    if code == 0 {
        Some(BountyDifficulty::Beginner)
    } else if code == 1 {
        Some(BountyDifficulty::Intermediate)
    } else if code == 2 {
        Some(BountyDifficulty::Advanced)
    } else if code == 3 {
        Some(BountyDifficulty::Expert)
    } else {
        None
    }
}

impl From<BountyDifficulty> for i16 {
    fn from(value: BountyDifficulty) -> (code: i16) {
        match value {
            BountyDifficulty::Beginner => 0,
            BountyDifficulty::Intermediate => 1,
            BountyDifficulty::Advanced => 2,
            BountyDifficulty::Expert => 3,
        }
    }
}

impl vstd::std_specs::convert::FromSpecImpl<BountyDifficulty> for i16 {
    open spec fn obeys_from_spec() -> bool {
        true
    }

    open spec fn from_spec(v: BountyDifficulty) -> i16 {
        bounty_difficulty_code(v)
    }
}

impl BountyDifficulty {
    /// Reads a value back from its stored code; other codes are refused with a message
    /// naming the type.
    pub fn try_from(value: i16) -> (r: Result<Self, String>)
        ensures
            bounty_difficulty_of_code(value) matches Some(v) ==> r == Ok::<Self, String>(v),
            bounty_difficulty_of_code(value) is None ==> (r matches Err(e) && e@ == "Invalid value for BountyDifficulty"@),
    {
        match value {
            0 => Ok(Self::Beginner),
            1 => Ok(Self::Intermediate),
            2 => Ok(Self::Advanced),
            3 => Ok(Self::Expert),
            _ => Err(String::from_str("Invalid value for BountyDifficulty")),
        }
    }
}

/// A value read back from its stored code is the value that was stored, and every code
/// in `0..=3` is the code of the value read from it.
pub proof fn lemma_bounty_difficulty_codes(v: BountyDifficulty, code: i16)
    ensures
        bounty_difficulty_of_code(bounty_difficulty_code(v)) == Some(v),
        0 <= bounty_difficulty_code(v) <= 3,
        bounty_difficulty_of_code(code) matches Some(w) ==> bounty_difficulty_code(w) == code,
        bounty_difficulty_of_code(code) is Some <==> 0 <= code <= 3,
{
}

/// Life cycle of the work submitted for a bounty: drafted, submitted, then reviewed by
/// the bounty's funder.
#[derive(Debug, Clone, Copy, PartialEq, Eq, Structural)]
pub enum BountySubmissionStatus {
    Draft,
    Submitted,
    Approved,
    Rejected,
    RequestRevision,
}

/// Life cycle of a bid placed on a bounty.
#[derive(Debug, Clone, Copy, PartialEq, Eq, Structural)]
pub enum BidStatus {
    Submitted,
    UnderReview,
    Accepted,
    Rejected,
    InProgress,
    Completed,
    Cancelled,
}

/// The small integer under which a value is stored.
pub open spec fn bid_status_code(v: BidStatus) -> i16 {
    match v {
        BidStatus::Submitted => 0,
        BidStatus::UnderReview => 1,
        BidStatus::Accepted => 2,
        BidStatus::Rejected => 3,
        BidStatus::InProgress => 4,
        BidStatus::Completed => 5,
        BidStatus::Cancelled => 6,
    }
}

/// The value stored under a code, if the code is one of `0..=6`.
pub open spec fn bid_status_of_code(code: i16) -> Option<BidStatus> {
    if code == 0 {
        Some(BidStatus::Submitted)
    } else if code == 1 {
        Some(BidStatus::UnderReview)
    } else if code == 2 {
        Some(BidStatus::Accepted)
    } else if code == 3 {
        Some(BidStatus::Rejected)
    } else if code == 4 {
        Some(BidStatus::InProgress)
    } else if code == 5 {
        Some(BidStatus::Completed)
    } else if code == 6 {
        Some(BidStatus::Cancelled)
    } else {
        None
    }
}

impl From<BidStatus> for i16 {
    fn from(value: BidStatus) -> (code: i16) {
        match value {
            BidStatus::Submitted => 0,
            BidStatus::UnderReview => 1,
            BidStatus::Accepted => 2,
            BidStatus::Rejected => 3,
            BidStatus::InProgress => 4,
            BidStatus::Completed => 5,
            BidStatus::Cancelled => 6,
        }
    }
}

impl vstd::std_specs::convert::FromSpecImpl<BidStatus> for i16 {
    open spec fn obeys_from_spec() -> bool {
        true
    }

    open spec fn from_spec(v: BidStatus) -> i16 {
        bid_status_code(v)
    }
}

impl BidStatus {
    /// Reads a value back from its stored code; other codes are refused with a message
    /// naming the type.
    pub fn try_from(value: i16) -> (r: Result<Self, String>)
        ensures
            bid_status_of_code(value) matches Some(v) ==> r == Ok::<Self, String>(v),
            bid_status_of_code(value) is None ==> (r matches Err(e) && e@ == "Invalid value for BidStatus"@),
    {
        match value {
            0 => Ok(Self::Submitted),
            1 => Ok(Self::UnderReview),
            2 => Ok(Self::Accepted),
            3 => Ok(Self::Rejected),
            4 => Ok(Self::InProgress),
            5 => Ok(Self::Completed),
            6 => Ok(Self::Cancelled),
            _ => Err(String::from_str("Invalid value for BidStatus")),
        }
    }
}

/// A value read back from its stored code is the value that was stored, and every code
/// in `0..=6` is the code of the value read from it.
pub proof fn lemma_bid_status_codes(v: BidStatus, code: i16)
    ensures
        bid_status_of_code(bid_status_code(v)) == Some(v),
        0 <= bid_status_code(v) <= 6,
        bid_status_of_code(code) matches Some(w) ==> bid_status_code(w) == code,
        bid_status_of_code(code) is Some <==> 0 <= code <= 6,
{
}

} // verus!
