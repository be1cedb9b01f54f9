//! Predictions placed on chain.

use vstd::prelude::*;

verus! {

/// A prediction placed on chain, as stored.
#[derive(Debug, Clone)]
pub struct PredictionPlacement {
    pub id: u128,
    pub user_address: String,
    pub proposal_id: i64,
    pub milestone_index: i64,
    pub predicts_success: bool,
    pub nerd_amount: i64,
    pub block_number: i64,
    pub created_at: i64,
    pub updated_at: i64,
}

/// What is shown of a placed prediction.
#[derive(Debug, Clone)]
pub struct PredictionPlacementInfo {
    pub id: u128,
    pub user_address: String,
    pub proposal_id: i64,
    pub milestone_index: i64,
    pub predicts_success: bool,
    pub nerd_amount: i64,
    pub block_number: i64,
    pub created_at: i64,
    pub updated_at: i64,
}

impl PredictionPlacement {
    /// What is shown of the placed prediction: every field kept.
    pub fn to_info(&self) -> (info: PredictionPlacementInfo)
        ensures
            info.id == self.id,
            info.user_address@ == self.user_address@,
            info.proposal_id == self.proposal_id,
            info.milestone_index == self.milestone_index,
            info.predicts_success == self.predicts_success,
            info.nerd_amount == self.nerd_amount,
            info.block_number == self.block_number,
            info.created_at == self.created_at,
            info.updated_at == self.updated_at,
    {
        PredictionPlacementInfo {
            id: self.id,
            user_address: self.user_address.clone(),
            proposal_id: self.proposal_id,
            milestone_index: self.milestone_index,
            predicts_success: self.predicts_success,
            nerd_amount: self.nerd_amount,
            block_number: self.block_number,
            created_at: self.created_at,
            updated_at: self.updated_at,
        }
    }
}

} // verus!
