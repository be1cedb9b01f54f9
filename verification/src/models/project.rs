//! Projects: as stored, as listed and as shown.

use vstd::prelude::*;
use crate::models::{clone_optional, clone_strings, same_optional_text, same_texts, string_or_default, text_or_empty, Milestone, ProjectEditorInfo, UserInfo};

verus! {

/// A research project as stored.
#[derive(Debug, Clone)]
pub struct Project {
    pub id: u128,
    pub nerd_id: String,
    pub proposal_id: i64,
    pub user_id: u128,
    pub title: Option<String>,
    pub description: Option<String>,
    pub manuscript: Option<String>,
    pub upload_files: Vec<String>,
    pub cover_photo: Option<String>,
    pub youtube_link: Option<String>,
    pub category: Vec<u128>,
    pub status: i16,
    pub funding_goal: Option<i32>,
    pub duration: Option<i32>,
    pub details: Option<String>,
    pub personnel_cost: Option<i32>,
    pub equipment_cost: Option<i32>,
    pub materials_cost: Option<i32>,
    pub overhead_cost: Option<i32>,
    pub other_cost: Option<i32>,
    pub tags: Vec<String>,
    pub ai_analysis: Option<String>,
    pub ai_status: Option<i16>,
    pub ai_objectives: Option<i16>,
    pub ai_methodology: Option<i16>,
    pub ai_budget: Option<i16>,
    pub ai_expertise: Option<i16>,
    pub ai_innovation: Option<i16>,
    pub funding_amount: i32,
    pub count_contributors: i32,
    pub created_at: i64,
    pub updated_at: i64,
    pub dao_at: Option<i64>,
    pub started_at: Option<i64>,
}

/// What is shown of a project, with its owner, categories, team and milestones.
#[derive(Debug, Clone)]
pub struct ProjectInfo {
    pub id: u128,
    pub nerd_id: String,
    pub user: UserInfo,
    pub title: Option<String>,
    pub description: Option<String>,
    pub manuscript: Option<String>,
    pub upload_files: Vec<String>,
    pub cover_photo: Option<String>,
    pub youtube_link: Option<String>,
    pub category: Vec<Category>,
    pub status: i16,
    pub funding_goal: Option<i32>,
    pub duration: Option<i32>,
    pub details: Option<String>,
    pub personnel_cost: Option<i32>,
    pub equipment_cost: Option<i32>,
    pub materials_cost: Option<i32>,
    pub overhead_cost: Option<i32>,
    pub other_cost: Option<i32>,
    pub tags: Vec<String>,
    pub team_members: Vec<TeamMember>,
    pub milestones: Vec<Milestone>,
    pub ai_analysis: Option<String>,
    pub ai_status: Option<i16>,
    pub ai_objectives: Option<i16>,
    pub ai_methodology: Option<i16>,
    pub ai_budget: Option<i16>,
    pub ai_expertise: Option<i16>,
    pub ai_innovation: Option<i16>,
    pub funding_amount: i32,
    pub count_contributors: i32,
    pub created_at: i64,
    pub updated_at: i64,
    pub dao_at: Option<i64>,
    pub started_at: Option<i64>,
}

/// A member of a project's team.
#[derive(Debug, Clone)]
pub struct TeamMember {
    pub id: u128,
    pub project_id: u128,
    pub name: String,
    pub role: String,
    pub bio: String,
    pub linkedin: String,
    pub twitter: String,
    pub github: String,
    pub created_at: i64,
    pub updated_at: i64,
}

/// A research category.
#[derive(Debug, Clone)]
pub struct Category {
    pub id: u128,
    pub name: String,
    pub is_available: bool,
    pub created_at: i64,
    pub updated_at: i64,
}

/// A project as listed.
#[derive(Debug, Clone)]
pub struct ProjectItem {
    pub id: u128,
    pub nerd_id: String,
    pub user_id: u128,
    pub title: Option<String>,
    pub description: Option<String>,
    pub cover_photo: Option<String>,
    pub category: Vec<u128>,
    pub status: i16,
    pub funding_goal: Option<i32>,
    pub duration: Option<i32>,
    pub tags: Vec<String>,
    pub funding_amount: i32,
    pub count_contributors: i32,
    pub created_at: i64,
    pub updated_at: i64,
    pub dao_at: Option<i64>,
    pub started_at: Option<i64>,
}

/// What is shown of a listed project.
#[derive(Debug, Clone)]
pub struct ProjectItemInfo {
    pub id: u128,
    pub nerd_id: String,
    pub user: UserInfo,
    pub editor: Option<ProjectEditorInfo>,
    pub title: String,
    pub description: String,
    pub cover_photo: Option<String>,
    pub category: Vec<Category>,
    pub status: i16,
    pub funding_goal: Option<i32>,
    pub duration: Option<i32>,
    pub tags: Vec<String>,
    pub funding_amount: i32,
    pub count_contributors: i32,
    pub created_at: i64,
    pub updated_at: i64,
    pub dao_at: Option<i64>,
    pub started_at: Option<i64>,
}

/// A project's id and nerd id.
#[derive(Debug, Clone)]
pub struct ProjectIds {
    pub id: u128,
    pub nerd_id: String,
}

impl Project {
    /// What is shown of the project: every field kept, with its owner, categories, team and milestones as given.
    pub fn to_info(&self, user: UserInfo, category: Vec<Category>, team_members: Vec<TeamMember>, milestones: Vec<Milestone>) -> (info: ProjectInfo)
        ensures
            info.id == self.id,
            info.nerd_id@ == self.nerd_id@,
            info.user == user,
            same_optional_text(info.title, self.title),
            same_optional_text(info.description, self.description),
            same_optional_text(info.manuscript, self.manuscript),
            same_texts(info.upload_files@, self.upload_files@),
            same_optional_text(info.cover_photo, self.cover_photo),
            same_optional_text(info.youtube_link, self.youtube_link),
            info.category == category,
            info.status == self.status,
            info.funding_goal == self.funding_goal,
            info.duration == self.duration,
            same_optional_text(info.details, self.details),
            info.personnel_cost == self.personnel_cost,
            info.equipment_cost == self.equipment_cost,
            info.materials_cost == self.materials_cost,
            info.overhead_cost == self.overhead_cost,
            info.other_cost == self.other_cost,
            same_texts(info.tags@, self.tags@),
            info.team_members == team_members,
            info.milestones == milestones,
            same_optional_text(info.ai_analysis, self.ai_analysis),
            info.ai_status == self.ai_status,
            info.ai_objectives == self.ai_objectives,
            info.ai_methodology == self.ai_methodology,
            info.ai_budget == self.ai_budget,
            info.ai_expertise == self.ai_expertise,
            info.ai_innovation == self.ai_innovation,
            info.funding_amount == self.funding_amount,
            info.count_contributors == self.count_contributors,
            info.created_at == self.created_at,
            info.updated_at == self.updated_at,
            info.dao_at == self.dao_at,
            info.started_at == self.started_at,
    {
        ProjectInfo {
            id: self.id,
            nerd_id: self.nerd_id.clone(),
            user,
            title: clone_optional(&self.title),
            description: clone_optional(&self.description),
            manuscript: clone_optional(&self.manuscript),
            upload_files: clone_strings(&self.upload_files),
            cover_photo: clone_optional(&self.cover_photo),
            youtube_link: clone_optional(&self.youtube_link),
            category,
            status: self.status,
            funding_goal: self.funding_goal,
            duration: self.duration,
            details: clone_optional(&self.details),
            personnel_cost: self.personnel_cost,
            equipment_cost: self.equipment_cost,
            materials_cost: self.materials_cost,
            overhead_cost: self.overhead_cost,
            other_cost: self.other_cost,
            tags: clone_strings(&self.tags),
            team_members,
            milestones,
            ai_analysis: clone_optional(&self.ai_analysis),
            ai_status: self.ai_status,
            ai_objectives: self.ai_objectives,
            ai_methodology: self.ai_methodology,
            ai_budget: self.ai_budget,
            ai_expertise: self.ai_expertise,
            ai_innovation: self.ai_innovation,
            funding_amount: self.funding_amount,
            count_contributors: self.count_contributors,
            created_at: self.created_at,
            updated_at: self.updated_at,
            dao_at: self.dao_at,
            started_at: self.started_at,
        }
    }
}

impl ProjectItem {
    /// What is shown of the listed project: missing title and description read as empty, with its owner, editor and categories as given.
    pub fn to_info(&self, user: UserInfo, editor: Option<ProjectEditorInfo>, category: Vec<Category>) -> (info: ProjectItemInfo)
        ensures
            info.id == self.id,
            info.nerd_id@ == self.nerd_id@,
            info.user == user,
            info.editor == editor,
            info.title@ == text_or_empty(self.title),
            info.description@ == text_or_empty(self.description),
            same_optional_text(info.cover_photo, self.cover_photo),
            info.category == category,
            info.status == self.status,
            info.funding_goal == self.funding_goal,
            info.duration == self.duration,
            same_texts(info.tags@, self.tags@),
            info.funding_amount == self.funding_amount,
            info.count_contributors == self.count_contributors,
            info.created_at == self.created_at,
            info.updated_at == self.updated_at,
            info.dao_at == self.dao_at,
            info.started_at == self.started_at,
    {
        ProjectItemInfo {
            id: self.id,
            nerd_id: self.nerd_id.clone(),
            user,
            editor,
            title: string_or_default(&self.title),
            description: string_or_default(&self.description),
            cover_photo: clone_optional(&self.cover_photo),
            category,
            status: self.status,
            funding_goal: self.funding_goal,
            duration: self.duration,
            tags: clone_strings(&self.tags),
            funding_amount: self.funding_amount,
            count_contributors: self.count_contributors,
            created_at: self.created_at,
            updated_at: self.updated_at,
            dao_at: self.dao_at,
            started_at: self.started_at,
        }
    }
}

} // verus!
