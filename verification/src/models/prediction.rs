//! Prediction markets on milestones: as stored and as shown.

use vstd::prelude::*;
use crate::calendar::{format_us_date, us_date_text, CalendarDate};
use crate::models::project::Category;
use crate::models::{clone_optional, clone_strings, same_optional_text, same_texts, UserInfo};
use crate::prediction::PredictionStatus;

verus! {

/// A prediction market on a milestone, as stored.
#[derive(Debug, Clone)]
pub struct Prediction {
    pub id: u128,
    pub nerd_id: String,
    pub contract_id: i64,
    pub status: PredictionStatus,
    pub number: i16,
    pub milestone_id: u128,
    pub title: String,
    pub description: String,
    pub funding_amount: i32,
    pub pool_amount: i32,
    pub yes_pool_amount: i32,
    pub no_pool_amount: i32,
    pub progress: i16,
    pub count_predictors: i32,
    pub count_view: i32,
    pub project_id: u128,
    pub project_nerd_id: String,
    pub proposal_id: i64,
    pub project_title: String,
    pub user_id: u128,
    pub cover_photo: Option<String>,
    pub category: Vec<u128>,
    pub tags: Vec<String>,
    pub created_at: i64,
    pub updated_at: i64,
    pub started_at: CalendarDate,
    pub ended_at: CalendarDate,
    pub released_at: Option<i64>,
}

/// What is shown of a prediction market; its window written as months, days and years.
#[derive(Debug, Clone)]
pub struct PredictionInfo {
    pub id: u128,
    pub nerd_id: String,
    pub status: PredictionStatus,
    pub number: i16,
    pub milestone_id: u128,
    pub title: String,
    pub description: String,
    pub funding_amount: i32,
    pub pool_amount: i32,
    pub yes_pool_amount: i32,
    pub no_pool_amount: i32,
    pub progress: i16,
    pub count_predictors: i32,
    pub count_view: i32,
    pub project_id: u128,
    pub project_nerd_id: String,
    pub proposal_id: i64,
    pub project_title: String,
    pub user: UserInfo,
    pub cover_photo: Option<String>,
    pub category: Vec<Category>,
    pub tags: Vec<String>,
    pub created_at: i64,
    pub updated_at: i64,
    pub started_at: String,
    pub ended_at: String,
    pub released_at: Option<i64>,
}

/// A predictor with their record.
#[derive(Debug, Clone)]
pub struct TopPredictor {
    pub id: u128,
    pub name: String,
    pub count_prediction: i32,
    pub accuracy_rate: i32,
}

impl Prediction {
    /// What is shown of the prediction market: every field kept, its window written as months, days and years, with its creator and categories as given.
    pub fn to_info(&self, user: UserInfo, category: Vec<Category>) -> (info: PredictionInfo)
        ensures
            info.id == self.id,
            info.nerd_id@ == self.nerd_id@,
            info.status == self.status,
            info.number == self.number,
            info.milestone_id == self.milestone_id,
            info.title@ == self.title@,
            info.description@ == self.description@,
            info.funding_amount == self.funding_amount,
            info.pool_amount == self.pool_amount,
            info.yes_pool_amount == self.yes_pool_amount,
            info.no_pool_amount == self.no_pool_amount,
            info.progress == self.progress,
            info.count_predictors == self.count_predictors,
            info.count_view == self.count_view,
            info.project_id == self.project_id,
            info.project_nerd_id@ == self.project_nerd_id@,
            info.proposal_id == self.proposal_id,
            info.project_title@ == self.project_title@,
            info.user == user,
            same_optional_text(info.cover_photo, self.cover_photo),
            info.category == category,
            same_texts(info.tags@, self.tags@),
            info.created_at == self.created_at,
            info.updated_at == self.updated_at,
            info.started_at@ == us_date_text(self.started_at),
            info.ended_at@ == us_date_text(self.ended_at),
            info.released_at == self.released_at,
    {
        PredictionInfo {
            id: self.id,
            nerd_id: self.nerd_id.clone(),
            status: self.status,
            number: self.number,
            milestone_id: self.milestone_id,
            title: self.title.clone(),
            description: self.description.clone(),
            funding_amount: self.funding_amount,
            pool_amount: self.pool_amount,
            yes_pool_amount: self.yes_pool_amount,
            no_pool_amount: self.no_pool_amount,
            progress: self.progress,
            count_predictors: self.count_predictors,
            count_view: self.count_view,
            project_id: self.project_id,
            project_nerd_id: self.project_nerd_id.clone(),
            proposal_id: self.proposal_id,
            project_title: self.project_title.clone(),
            user,
            cover_photo: clone_optional(&self.cover_photo),
            category,
            tags: clone_strings(&self.tags),
            created_at: self.created_at,
            updated_at: self.updated_at,
            started_at: format_us_date(&self.started_at),
            ended_at: format_us_date(&self.ended_at),
            released_at: self.released_at,
        }
    }
}

} // verus!
