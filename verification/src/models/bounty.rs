//! Bounties, their bids, milestones, comments and chats: as stored and as shown.

use vstd::prelude::*;
use crate::bounty::{BidStatus, BountyDifficulty, BountyStatus};
use crate::calendar::{format_us_date, is_chrono_date, lemma_us_date_reads_back, us_date_reading, us_date_text, CalendarDate};
use crate::models::project::Category;
use crate::models::{clone_optional, clone_strings, same_optional_text, same_texts, UserInfo};

verus! {

/// A bounty as stored.
#[derive(Debug, Clone)]
pub struct Bounty {
    pub id: u128,
    pub nerd_id: String,
    pub contract_id: i64,
    pub user_id: u128,
    pub status: BountyStatus,
    pub title: String,
    pub description: String,
    pub upload_file: Option<String>,
    pub cover_photo: Option<String>,
    pub category: u128,
    pub difficulty: BountyDifficulty,
    pub tags: Vec<String>,
    pub reward_amount: i32,
    pub reward_currency: String,
    pub deadline: CalendarDate,
    pub requirements: Vec<String>,
    pub deliverables: Vec<String>,
    pub evaluation_criteria: Vec<String>,
    pub by_milestone: bool,
    pub admin_notes: Option<String>,
    pub cancellation_reason: Option<String>,
    pub count_view: i32,
    pub count_comment: i32,
    pub count_bid: i32,
    pub created_at: i64,
    pub updated_at: i64,
    pub approved_at: Option<i64>,
    pub rejected_at: Option<i64>,
    pub canceled_at: Option<i64>,
    pub started_at: Option<i64>,
}

/// What is shown of a bounty, with its owner, category and milestones; its deadline written as month, day and year.
#[derive(Debug, Clone)]
pub struct BountyInfo {
    pub id: u128,
    pub nerd_id: String,
    pub contract_id: i64,
    pub user: UserInfo,
    pub status: BountyStatus,
    pub title: String,
    pub description: String,
    pub upload_file: Option<String>,
    pub cover_photo: Option<String>,
    pub category: Option<Category>,
    pub difficulty: BountyDifficulty,
    pub tags: Vec<String>,
    pub reward_amount: i32,
    pub reward_currency: String,
    pub deadline: String,
    pub requirements: Vec<String>,
    pub deliverables: Vec<String>,
    pub evaluation_criteria: Vec<String>,
    pub by_milestone: bool,
    pub milestones: Vec<BountyMilestone>,
    pub admin_notes: Option<String>,
    pub cancellation_reason: Option<String>,
    pub count_view: i32,
    pub count_comment: i32,
    pub count_bid: i32,
    pub created_at: i64,
    pub updated_at: i64,
    pub approved_at: Option<i64>,
    pub rejected_at: Option<i64>,
    pub canceled_at: Option<i64>,
    pub started_at: Option<i64>,
}

/// A bid on a bounty, as stored.
#[derive(Debug, Clone)]
pub struct Bid {
    pub id: u128,
    pub bounty_id: u128,
    pub nerd_id: String,
    pub user_id: u128,
    pub status: BidStatus,
    pub title: String,
    pub description: String,
    pub bid_amount: i32,
    pub timeline: String,
    pub technical_approach: String,
    pub relevant_experience: Option<String>,
    pub budget_breakdown: Option<String>,
    pub upload_files: Vec<String>,
    pub created_at: i64,
    pub updated_at: i64,
    pub accepted_at: Option<i64>,
    pub rejected_at: Option<i64>,
    pub canceled_at: Option<i64>,
    pub completed_at: Option<i64>,
}

/// What is shown of a bid, with its author and milestones.
#[derive(Debug, Clone)]
pub struct BidInfo {
    pub id: u128,
    pub bounty_id: u128,
    pub nerd_id: String,
    pub user: UserInfo,
    pub status: BidStatus,
    pub title: String,
    pub description: String,
    pub bid_amount: i32,
    pub timeline: String,
    pub technical_approach: String,
    pub relevant_experience: Option<String>,
    pub budget_breakdown: Option<String>,
    pub upload_files: Vec<String>,
    pub milestones: Vec<BidMilestone>,
    pub created_at: i64,
    pub updated_at: i64,
    pub accepted_at: Option<i64>,
    pub rejected_at: Option<i64>,
    pub canceled_at: Option<i64>,
    pub completed_at: Option<i64>,
}

/// A milestone of a bounty.
#[derive(Debug, Clone)]
pub struct BountyMilestone {
    pub id: u128,
    pub bounty_id: u128,
    pub number: i16,
    pub title: String,
    pub description: String,
    pub reward_amount: i32,
    pub timeline: Option<String>,
    pub requirements: Vec<String>,
    pub deliverables: Vec<String>,
    pub created_at: i64,
    pub updated_at: i64,
}

/// A milestone of a bid.
#[derive(Debug, Clone)]
pub struct BidMilestone {
    pub id: u128,
    pub bid_id: u128,
    pub bounty_id: u128,
    pub nerd_id: String,
    pub number: i16,
    pub title: String,
    pub description: String,
    pub amount: i32,
    pub timeline: String,
    pub created_at: i64,
    pub updated_at: i64,
}

/// A comment on a bounty, as stored.
#[derive(Debug, Clone)]
pub struct BountyComment {
    pub id: u128,
    pub user_id: u128,
    pub bounty_id: u128,
    pub nerd_id: String,
    pub comment: String,
    pub created_at: i64,
    pub updated_at: i64,
}

/// What is shown of a comment on a bounty.
#[derive(Debug, Clone)]
pub struct BountyCommentInfo {
    pub id: u128,
    pub user: UserInfo,
    pub comment: String,
    pub created_at: i64,
}

/// A message between a bounty's funder and a bidder, as stored.
#[derive(Debug, Clone)]
pub struct BountyChat {
    pub id: u128,
    pub user_id: u128,
    pub bounty_id: u128,
    pub nerd_id: String,
    pub chat_number: String,
    pub message: String,
    pub file_urls: Vec<String>,
    pub is_read: bool,
    pub created_at: i64,
    pub updated_at: i64,
}

/// What is shown of a chat message.
#[derive(Debug, Clone)]
pub struct BountyChatInfo {
    pub id: u128,
    pub user: UserInfo,
    pub message: String,
    pub file_urls: Vec<String>,
    pub created_at: i64,
    pub updated_at: i64,
}

impl Bounty {
    /// What is shown of the bounty: every field kept, its deadline written as month, day and year, with its owner, category and milestones as given.
    pub fn to_info(&self, user: UserInfo, category: Option<Category>, milestones: Vec<BountyMilestone>) -> (info: BountyInfo)
        ensures
            info.id == self.id,
            info.nerd_id@ == self.nerd_id@,
            info.contract_id == self.contract_id,
            info.user == user,
            info.status == self.status,
            info.title@ == self.title@,
            info.description@ == self.description@,
            same_optional_text(info.upload_file, self.upload_file),
            same_optional_text(info.cover_photo, self.cover_photo),
            info.category == category,
            info.difficulty == self.difficulty,
            same_texts(info.tags@, self.tags@),
            info.reward_amount == self.reward_amount,
            info.reward_currency@ == self.reward_currency@,
            info.deadline@ == us_date_text(self.deadline),
            is_chrono_date(self.deadline) ==> us_date_reading(info.deadline@) == Some(self.deadline),
            same_texts(info.requirements@, self.requirements@),
            same_texts(info.deliverables@, self.deliverables@),
            same_texts(info.evaluation_criteria@, self.evaluation_criteria@),
            info.by_milestone == self.by_milestone,
            info.milestones == milestones,
            same_optional_text(info.admin_notes, self.admin_notes),
            same_optional_text(info.cancellation_reason, self.cancellation_reason),
            info.count_view == self.count_view,
            info.count_comment == self.count_comment,
            info.count_bid == self.count_bid,
            info.created_at == self.created_at,
            info.updated_at == self.updated_at,
            info.approved_at == self.approved_at,
            info.rejected_at == self.rejected_at,
            info.canceled_at == self.canceled_at,
            info.started_at == self.started_at,
    {
        proof {
            if is_chrono_date(self.deadline) {
                lemma_us_date_reads_back(self.deadline);
            }
        }
        BountyInfo {
            id: self.id,
            nerd_id: self.nerd_id.clone(),
            contract_id: self.contract_id,
            user,
            status: self.status,
            title: self.title.clone(),
            description: self.description.clone(),
            upload_file: clone_optional(&self.upload_file),
            cover_photo: clone_optional(&self.cover_photo),
            category,
            difficulty: self.difficulty,
            tags: clone_strings(&self.tags),
            reward_amount: self.reward_amount,
            reward_currency: self.reward_currency.clone(),
            deadline: format_us_date(&self.deadline),
            requirements: clone_strings(&self.requirements),
            deliverables: clone_strings(&self.deliverables),
            evaluation_criteria: clone_strings(&self.evaluation_criteria),
            by_milestone: self.by_milestone,
            milestones,
            admin_notes: clone_optional(&self.admin_notes),
            cancellation_reason: clone_optional(&self.cancellation_reason),
            count_view: self.count_view,
            count_comment: self.count_comment,
            count_bid: self.count_bid,
            created_at: self.created_at,
            updated_at: self.updated_at,
            approved_at: self.approved_at,
            rejected_at: self.rejected_at,
            canceled_at: self.canceled_at,
            started_at: self.started_at,
        }
    }
}

impl Bid {
    /// What is shown of the bid: every field kept, with its author and milestones as given.
    pub fn to_info(&self, user: UserInfo, milestones: Vec<BidMilestone>) -> (info: BidInfo)
        ensures
            info.id == self.id,
            info.bounty_id == self.bounty_id,
            info.nerd_id@ == self.nerd_id@,
            info.user == user,
            info.status == self.status,
            info.title@ == self.title@,
            info.description@ == self.description@,
            info.bid_amount == self.bid_amount,
            info.timeline@ == self.timeline@,
            info.technical_approach@ == self.technical_approach@,
            same_optional_text(info.relevant_experience, self.relevant_experience),
            same_optional_text(info.budget_breakdown, self.budget_breakdown),
            same_texts(info.upload_files@, self.upload_files@),
            info.milestones == milestones,
            info.created_at == self.created_at,
            info.updated_at == self.updated_at,
            info.accepted_at == self.accepted_at,
            info.rejected_at == self.rejected_at,
            info.canceled_at == self.canceled_at,
            info.completed_at == self.completed_at,
    {
        BidInfo {
            id: self.id,
            bounty_id: self.bounty_id,
            nerd_id: self.nerd_id.clone(),
            user,
            status: self.status,
            title: self.title.clone(),
            description: self.description.clone(),
            bid_amount: self.bid_amount,
            timeline: self.timeline.clone(),
            technical_approach: self.technical_approach.clone(),
            relevant_experience: clone_optional(&self.relevant_experience),
            budget_breakdown: clone_optional(&self.budget_breakdown),
            upload_files: clone_strings(&self.upload_files),
            milestones,
            created_at: self.created_at,
            updated_at: self.updated_at,
            accepted_at: self.accepted_at,
            rejected_at: self.rejected_at,
            canceled_at: self.canceled_at,
            completed_at: self.completed_at,
        }
    }
}

impl BountyComment {
    /// What is shown of the comment, with its author as given.
    pub fn to_info(&self, user: UserInfo) -> (info: BountyCommentInfo)
        ensures
            info.id == self.id,
            info.user == user,
            info.comment@ == self.comment@,
            info.created_at == self.created_at,
    {
        BountyCommentInfo {
            id: self.id,
            user,
            comment: self.comment.clone(),
            created_at: self.created_at,
        }
    }
}

impl BountyChat {
    /// What is shown of the message, with its sender as given.
    pub fn to_info(&self, user: UserInfo) -> (info: BountyChatInfo)
        ensures
            info.id == self.id,
            info.user == user,
            info.message@ == self.message@,
            same_texts(info.file_urls@, self.file_urls@),
            info.created_at == self.created_at,
            info.updated_at == self.updated_at,
    {
        BountyChatInfo {
            id: self.id,
            user,
            message: self.message.clone(),
            file_urls: clone_strings(&self.file_urls),
            created_at: self.created_at,
            updated_at: self.updated_at,
        }
    }
}

} // verus!
