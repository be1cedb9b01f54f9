//! Requests and responses of the bounty endpoints.

use vstd::prelude::*;
use crate::bounty::{BidStatus, BountyDifficulty, BountyReviewType};

verus! {

/// A milestone of a bounty being created.
#[derive(Debug, Clone)]
pub struct BountyMilestoneRequest {
    pub title: String,
    pub description: String,
    pub reward_amount: i32,
    pub timeline: Option<String>,
    pub requirements: Option<Vec<String>>,
    pub deliverables: Option<Vec<String>>,
}

/// The fields of a bounty that its owner may change.
#[derive(Debug, Clone)]
pub struct BountyUpdateRequest {
    pub title: String,
    pub description: String,
    pub reward_amount: i32,
    pub reward_currency: String,
    pub difficulty: BountyDifficulty,
    pub deadline: String,
}

/// Filters and page of a bounty's bids.
#[derive(Debug, Clone)]
pub struct GetBidsOption {
    pub status: Option<BidStatus>,
    pub offset: Option<i32>,
    pub limit: Option<i32>,
}

/// Filters and page of the caller's own bids.
#[derive(Debug, Clone)]
pub struct GetMyBidsOption {
    pub status: Option<BidStatus>,
    pub offset: Option<i32>,
    pub limit: Option<i32>,
}

/// A bid placed on a bounty.
#[derive(Debug, Clone)]
pub struct SubmitBidRequest {
    pub title: String,
    pub description: String,
    pub bid_amount: i32,
    pub timeline: String,
    pub technical_approach: String,
    pub relevant_experience: String,
    pub budget_breakdown: String,
    pub milestones: Vec<BidMilestoneRequest>,
    pub upload_files: Vec<String>,
}

/// A milestone of a bid being placed.
#[derive(Debug, Clone)]
pub struct BidMilestoneRequest {
    pub title: String,
    pub description: String,
    pub amount: i32,
    pub timeline: String,
}

/// A page of a list: how many items to skip and how many to give.
#[derive(Debug, Clone)]
pub struct OffsetAndLimitOption {
    pub offset: Option<i32>,
    pub limit: Option<i32>,
}

/// A comment on a bounty.
#[derive(Debug, Clone)]
pub struct SubmitBountyCommentRequest {
    pub comment: String,
}

/// An admin's review of a bounty awaiting approval.
#[derive(Debug, Clone)]
pub struct ReviewBountyRequest {
    pub status: BountyReviewType,
    pub admin_notes: Option<String>,
}

/// Counts of the caller's bounties and bids.
#[derive(Debug, Clone)]
pub struct GetMyBountyStatsResponse {
    pub total_earned: i32,
    pub completed: i32,
    pub in_progress: i32,
    pub success_rate: i32,
}

/// The chat to read and the page of its messages.
#[derive(Debug, Clone)]
pub struct GetBountyChatsOption {
    pub chat_number: String,
    pub offset: Option<i32>,
    pub limit: Option<i32>,
}

/// How many similar bounties to list.
#[derive(Debug, Clone)]
pub struct GetSimilarBountiesOption {
    pub limit: Option<i32>,
}

/// An admin's review of the work submitted for a bounty.
#[derive(Debug, Clone)]
pub struct ReviewBountyWorkSubmissionRequest {
    pub status: BountyReviewType,
    pub admin_notes: Option<String>,
}

/// The work submitted for an accepted bid.
#[derive(Debug, Clone)]
pub struct SubmitBountyWorkRequest {
    pub title: String,
    pub description: String,
    pub deliverable_files: Vec<String>,
    pub additional_notes: Option<String>,
    pub milestone_submissions: Option<Vec<BountyMilestoneSubmission>>,
}

/// The work submitted for one milestone of a bounty.
#[derive(Debug, Clone)]
pub struct BountyMilestoneSubmission {
    pub milestone_number: i16,
    pub title: String,
    pub description: String,
    pub deliverable_files: Vec<String>,
    pub additional_notes: Option<String>,
}

/// The work submitted for one milestone of a bid.
#[derive(Debug, Clone)]
pub struct SubmitBidMilestoneWorkRequest {
    pub notes: String,
    pub attached_file_urls: Vec<String>,
}

/// An action taken on a bounty by its owner.
#[derive(Debug, Clone)]
pub struct BountyActionRequest {
    pub action: BountyAction,
    pub admin_notes: Option<String>,
}

/// What a bounty's owner may do with it.
#[derive(Debug, Clone, Copy, PartialEq, Eq, Structural)]
pub enum BountyAction {
    Complete,
    Reject,
}
} // verus!
