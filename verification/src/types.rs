//! Status enums shared by projects, milestones, reviews and users, with their
//! small-integer database codes.

use vstd::prelude::*;

verus! {

/// Which kind of e-mail verification a passkey was issued for.
#[derive(Debug, Clone, Copy, PartialEq, Eq, Structural)]
pub enum EmailVerifyType {
    AddEmail,
    VerifyEmail,
    ResetPassword,
}

/// The name under which an e-mail verification kind is displayed and stored.
pub open spec fn email_verify_type_name(t: EmailVerifyType) -> Seq<char> {
    match t {
        EmailVerifyType::AddEmail => "AddEmail"@,
        EmailVerifyType::VerifyEmail => "VerifyEmail"@,
        EmailVerifyType::ResetPassword => "ResetPassword"@,
    }
}

impl EmailVerifyType {
    /// The display name of the verification kind.
    pub fn to_string(&self) -> (s: String)
        ensures
            s@ == email_verify_type_name(*self),
    {
        match self {
            EmailVerifyType::AddEmail => String::from_str("AddEmail"),
            EmailVerifyType::VerifyEmail => String::from_str("VerifyEmail"),
            EmailVerifyType::ResetPassword => String::from_str("ResetPassword"),
        }
    }
}

/// Progress of the automatic error check of a paper.
#[derive(Debug, Clone, Copy, PartialEq, Eq, Structural)]
pub enum AIErrorCheckStatus {
    NotYet,
    InProcess,
    Done,
    Error,
}

/// The status that a stored code stands for; codes outside `0..=2` read as `Error`.
pub open spec fn ai_error_check_status_of(code: i16) -> AIErrorCheckStatus {
    if code == 0 {
        AIErrorCheckStatus::NotYet
    } else if code == 1 {
        AIErrorCheckStatus::InProcess
    } else if code == 2 {
        AIErrorCheckStatus::Done
    } else {
        AIErrorCheckStatus::Error
    }
}

/// The code under which a status is stored: its position in the declaration.
pub open spec fn ai_error_check_status_code(s: AIErrorCheckStatus) -> i16 {
    match s {
        AIErrorCheckStatus::NotYet => 0,
        AIErrorCheckStatus::InProcess => 1,
        AIErrorCheckStatus::Done => 2,
        AIErrorCheckStatus::Error => 3,
    }
}

impl AIErrorCheckStatus {
    /// The status stored under a code.
    pub fn from(status: i16) -> (r: Self)
        ensures
            r == ai_error_check_status_of(status),
    {
        match status {
            0 => Self::NotYet,
            1 => Self::InProcess,
            2 => Self::Done,
            _ => Self::Error,
        }
    }

    /// The code under which the status is stored.
    pub fn to_i16(&self) -> (code: i16)
        ensures
            code == ai_error_check_status_code(*self),
    {
        match self {
            Self::NotYet => 0,
            Self::InProcess => 1,
            Self::Done => 2,
            Self::Error => 3,
        }
    }
}

impl Default for AIErrorCheckStatus {
    fn default() -> (r: Self)
        ensures
            r == AIErrorCheckStatus::NotYet,
    {
        AIErrorCheckStatus::NotYet
    }
}

/// Decoding the stored code of a status gives the status back.
pub proof fn lemma_ai_error_check_status_roundtrip(s: AIErrorCheckStatus)
    ensures
        ai_error_check_status_of(ai_error_check_status_code(s)) == s,
{
}

/// Every code from `0` to `3` survives decoding and encoding; any other code decodes
/// to `Error`.
pub proof fn lemma_ai_error_check_status_codes(code: i16)
    ensures
        0 <= code <= 3 ==> ai_error_check_status_code(ai_error_check_status_of(code)) == code,
        !(0 <= code <= 3) ==> ai_error_check_status_of(code) == AIErrorCheckStatus::Error,
{
}

/// Life cycle of a research project, from its creation through review, DAO vote and funding.
#[derive(Debug, Clone, Copy, PartialEq, Eq, Structural)]
pub enum ProjectStatus {
    Creating,
    PendingReview,
    UnderReview,
    RevisionEditor,
    ApprovedEditor,
    RevisionAdmin,
    ApprovedAdmin,
    DaoVoting,
    Funding,
    Completed,
    Rejected,
}

/// The status that a stored code stands for; codes outside `0..=9` read as `Rejected`.
pub open spec fn project_status_of(code: i16) -> ProjectStatus {
    if code == 0 {
        ProjectStatus::Creating
    } else if code == 1 {
        ProjectStatus::PendingReview
    } else if code == 2 {
        ProjectStatus::UnderReview
    } else if code == 3 {
        ProjectStatus::RevisionEditor
    } else if code == 4 {
        ProjectStatus::ApprovedEditor
    } else if code == 5 {
        ProjectStatus::RevisionAdmin
    } else if code == 6 {
        ProjectStatus::ApprovedAdmin
    } else if code == 7 {
        ProjectStatus::DaoVoting
    } else if code == 8 {
        ProjectStatus::Funding
    } else if code == 9 {
        ProjectStatus::Completed
    } else {
        ProjectStatus::Rejected
    }
}

/// The code under which a status is stored: its position in the declaration.
pub open spec fn project_status_code(s: ProjectStatus) -> i16 {
    match s {
        ProjectStatus::Creating => 0,
        ProjectStatus::PendingReview => 1,
        ProjectStatus::UnderReview => 2,
        ProjectStatus::RevisionEditor => 3,
        ProjectStatus::ApprovedEditor => 4,
        ProjectStatus::RevisionAdmin => 5,
        ProjectStatus::ApprovedAdmin => 6,
        ProjectStatus::DaoVoting => 7,
        ProjectStatus::Funding => 8,
        ProjectStatus::Completed => 9,
        ProjectStatus::Rejected => 10,
    }
}

impl ProjectStatus {
    /// The status stored under a code.
    pub fn from(status: i16) -> (r: Self)
        ensures
            r == project_status_of(status),
    {
        match status {
            0 => Self::Creating,
            1 => Self::PendingReview,
            2 => Self::UnderReview,
            3 => Self::RevisionEditor,
            4 => Self::ApprovedEditor,
            5 => Self::RevisionAdmin,
            6 => Self::ApprovedAdmin,
            7 => Self::DaoVoting,
            8 => Self::Funding,
            9 => Self::Completed,
            _ => Self::Rejected,
        }
    }

    /// The code under which the status is stored.
    pub fn to_i16(&self) -> (code: i16)
        ensures
            code == project_status_code(*self),
    {
        match self {
            Self::Creating => 0,
            Self::PendingReview => 1,
            Self::UnderReview => 2,
            Self::RevisionEditor => 3,
            Self::ApprovedEditor => 4,
            Self::RevisionAdmin => 5,
            Self::ApprovedAdmin => 6,
            Self::DaoVoting => 7,
            Self::Funding => 8,
            Self::Completed => 9,
            Self::Rejected => 10,
        }
    }
}

impl Default for ProjectStatus {
    fn default() -> (r: Self)
        ensures
            r == ProjectStatus::Creating,
    {
        ProjectStatus::Creating
    }
}

/// Decoding the stored code of a status gives the status back.
pub proof fn lemma_project_status_roundtrip(s: ProjectStatus)
    ensures
        project_status_of(project_status_code(s)) == s,
{
}

/// Every code from `0` to `10` survives decoding and encoding; any other code decodes
/// to `Rejected`.
pub proof fn lemma_project_status_codes(code: i16)
    ensures
        0 <= code <= 10 ==> project_status_code(project_status_of(code)) == code,
        !(0 <= code <= 10) ==> project_status_of(code) == ProjectStatus::Rejected,
{
}

/// Progress of one milestone of a funded project.
#[derive(Debug, Clone, Copy, PartialEq, Eq, Structural)]
pub enum MileStoneStatus {
    Pending,
    InProgress,
    Success,
    GiveUp,
    Failed,
}

/// The status that a stored code stands for; codes outside `0..=3` read as `Failed`.
pub open spec fn milestone_status_of(code: i16) -> MileStoneStatus {
    if code == 0 {
        MileStoneStatus::Pending
    } else if code == 1 {
        MileStoneStatus::InProgress
    } else if code == 2 {
        MileStoneStatus::Success
    } else if code == 3 {
        MileStoneStatus::GiveUp
    } else {
        MileStoneStatus::Failed
    }
}

/// The code under which a status is stored: its position in the declaration.
pub open spec fn milestone_status_code(s: MileStoneStatus) -> i16 {
    match s {
        MileStoneStatus::Pending => 0,
        MileStoneStatus::InProgress => 1,
        MileStoneStatus::Success => 2,
        MileStoneStatus::GiveUp => 3,
        MileStoneStatus::Failed => 4,
    }
}

impl MileStoneStatus {
    /// The status stored under a code.
    pub fn from(status: i16) -> (r: Self)
        ensures
            r == milestone_status_of(status),
    {
        match status {
            0 => Self::Pending,
            1 => Self::InProgress,
            2 => Self::Success,
            3 => Self::GiveUp,
            _ => Self::Failed,
        }
    }

    /// The code under which the status is stored.
    pub fn to_i16(&self) -> (code: i16)
        ensures
            code == milestone_status_code(*self),
    {
        match self {
            Self::Pending => 0,
            Self::InProgress => 1,
            Self::Success => 2,
            Self::GiveUp => 3,
            Self::Failed => 4,
        }
    }
}

impl Default for MileStoneStatus {
    fn default() -> (r: Self)
        ensures
            r == MileStoneStatus::Pending,
    {
        MileStoneStatus::Pending
    }
}

/// Decoding the stored code of a status gives the status back.
pub proof fn lemma_milestone_status_roundtrip(s: MileStoneStatus)
    ensures
        milestone_status_of(milestone_status_code(s)) == s,
{
}

/// Every code from `0` to `4` survives decoding and encoding; any other code decodes
/// to `Failed`.
pub proof fn lemma_milestone_status_codes(code: i16)
    ensures
        0 <= code <= 4 ==> milestone_status_code(milestone_status_of(code)) == code,
        !(0 <= code <= 4) ==> milestone_status_of(code) == MileStoneStatus::Failed,
{
}

/// State of the proof of work submitted for a milestone.
#[derive(Debug, Clone, Copy, PartialEq, Eq, Structural)]
pub enum ProjectResultStatus {
    Empty,
    Submitted,
    Approved,
    Rejected,
}

/// The status that a stored code stands for; codes outside `0..=2` read as `Rejected`.
pub open spec fn project_result_status_of(code: i16) -> ProjectResultStatus {
    if code == 0 {
        ProjectResultStatus::Empty
    } else if code == 1 {
        ProjectResultStatus::Submitted
    } else if code == 2 {
        ProjectResultStatus::Approved
    } else {
        ProjectResultStatus::Rejected
    }
}

/// The code under which a status is stored: its position in the declaration.
pub open spec fn project_result_status_code(s: ProjectResultStatus) -> i16 {
    match s {
        ProjectResultStatus::Empty => 0,
        ProjectResultStatus::Submitted => 1,
        ProjectResultStatus::Approved => 2,
        ProjectResultStatus::Rejected => 3,
    }
}

impl ProjectResultStatus {
    /// The status stored under a code.
    pub fn from(status: i16) -> (r: Self)
        ensures
            r == project_result_status_of(status),
    {
        match status {
            0 => Self::Empty,
            1 => Self::Submitted,
            2 => Self::Approved,
            _ => Self::Rejected,
        }
    }

    /// The code under which the status is stored.
    pub fn to_i16(&self) -> (code: i16)
        ensures
            code == project_result_status_code(*self),
    {
        match self {
            Self::Empty => 0,
            Self::Submitted => 1,
            Self::Approved => 2,
            Self::Rejected => 3,
        }
    }
}

impl Default for ProjectResultStatus {
    fn default() -> (r: Self)
        ensures
            r == ProjectResultStatus::Empty,
    {
        ProjectResultStatus::Empty
    }
}

/// Decoding the stored code of a status gives the status back.
pub proof fn lemma_project_result_status_roundtrip(s: ProjectResultStatus)
    ensures
        project_result_status_of(project_result_status_code(s)) == s,
{
}

/// Every code from `0` to `3` survives decoding and encoding; any other code decodes
/// to `Rejected`.
pub proof fn lemma_project_result_status_codes(code: i16)
    ensures
        0 <= code <= 3 ==> project_result_status_code(project_result_status_of(code)) == code,
        !(0 <= code <= 3) ==> project_result_status_of(code) == ProjectResultStatus::Rejected,
{
}

/// Verdict of an editor or an admin on a project under review.
#[derive(Debug, Clone, Copy, PartialEq, Eq, Structural)]
pub enum FeedbackStatus {
    Pending,
    Accepted,
    RevisionRequired,
    Rejected,
}

/// The status that a stored code stands for; codes outside `0..=2` read as `Rejected`.
pub open spec fn feedback_status_of(code: i16) -> FeedbackStatus {
    if code == 0 {
        FeedbackStatus::Pending
    } else if code == 1 {
        FeedbackStatus::Accepted
    } else if code == 2 {
        FeedbackStatus::RevisionRequired
    } else {
        FeedbackStatus::Rejected
    }
}

/// The code under which a status is stored: its position in the declaration.
pub open spec fn feedback_status_code(s: FeedbackStatus) -> i16 {
    match s {
        FeedbackStatus::Pending => 0,
        FeedbackStatus::Accepted => 1,
        FeedbackStatus::RevisionRequired => 2,
        FeedbackStatus::Rejected => 3,
    }
}

impl FeedbackStatus {
    /// The status stored under a code.
    pub fn from(status: i16) -> (r: Self)
        ensures
            r == feedback_status_of(status),
    {
        match status {
            0 => Self::Pending,
            1 => Self::Accepted,
            2 => Self::RevisionRequired,
            _ => Self::Rejected,
        }
    }

    /// The code under which the status is stored.
    pub fn to_i16(&self) -> (code: i16)
        ensures
            code == feedback_status_code(*self),
    {
        match self {
            Self::Pending => 0,
            Self::Accepted => 1,
            Self::RevisionRequired => 2,
            Self::Rejected => 3,
        }
    }
}

impl Default for FeedbackStatus {
    fn default() -> (r: Self)
        ensures
            r == FeedbackStatus::Pending,
    {
        FeedbackStatus::Pending
    }
}

/// Decoding the stored code of a status gives the status back.
pub proof fn lemma_feedback_status_roundtrip(s: FeedbackStatus)
    ensures
        feedback_status_of(feedback_status_code(s)) == s,
{
}

/// Every code from `0` to `3` survives decoding and encoding; any other code decodes
/// to `Rejected`.
pub proof fn lemma_feedback_status_codes(code: i16)
    ensures
        0 <= code <= 3 ==> feedback_status_code(feedback_status_of(code)) == code,
        !(0 <= code <= 3) ==> feedback_status_of(code) == FeedbackStatus::Rejected,
{
}

/// Milliseconds since the Unix epoch.
pub type TimestampMillis = u64;

/// Kind of a community post.
#[derive(Debug, Clone, Copy, PartialEq, Eq, Structural)]
pub enum PostType {
    IntroduceYourself,
    UserFeedback,
    Job,
    GeneralDiscussion,
    Questions,
    Events,
    ResearchCheck,
    GenerateArticle,
    Article,
}

/// Audience to whom a post is shown.
#[derive(Debug, Clone, Copy, PartialEq, Eq, Structural)]
pub enum ShowerType {
    SpecificUsers,
    MyFollowers,
    Everyone,
    Nobody,
}

/// Role that a user holds on the platform; roles are stored as their names.
#[derive(Debug, Clone, Copy, PartialEq, Eq, Structural)]
pub enum UserRoleType {
    Researcher,
    Editor,
    Admin,
    Funder,
    Predictor,
    Member,
    Student,
}

/// The name under which a value is displayed and stored.
pub open spec fn user_role_name(v: UserRoleType) -> Seq<char> {
    match v {
        UserRoleType::Researcher => "Researcher"@,
        UserRoleType::Editor => "Editor"@,
        UserRoleType::Admin => "Admin"@,
        UserRoleType::Funder => "Funder"@,
        UserRoleType::Predictor => "Predictor"@,
        UserRoleType::Member => "Member"@,
        UserRoleType::Student => "Student"@,
    }
}

impl UserRoleType {
    /// The display name of the value.
    pub fn to_string(&self) -> (s: String)
        ensures
            s@ == user_role_name(*self),
    {
        match self {
            UserRoleType::Researcher => String::from_str("Researcher"),
            UserRoleType::Editor => String::from_str("Editor"),
            UserRoleType::Admin => String::from_str("Admin"),
            UserRoleType::Funder => String::from_str("Funder"),
            UserRoleType::Predictor => String::from_str("Predictor"),
            UserRoleType::Member => String::from_str("Member"),
            UserRoleType::Student => String::from_str("Student"),
        }
    }
}

impl Default for UserRoleType {
    fn default() -> (r: Self)
        ensures
            r == UserRoleType::Researcher,
    {
        UserRoleType::Researcher
    }
}

/// Reward tier of a user; tiers are stored as their names.
#[derive(Debug, Clone, Copy, PartialEq, Eq, Structural)]
pub enum UserTierType {
    Bronze,
    Silver,
    Gold,
    Platinum,
    Diamond,
}

/// The name under which a value is displayed and stored.
pub open spec fn user_tier_name(v: UserTierType) -> Seq<char> {
    match v {
        UserTierType::Bronze => "Bronze"@,
        UserTierType::Silver => "Silver"@,
        UserTierType::Gold => "Gold"@,
        UserTierType::Platinum => "Platinum"@,
        UserTierType::Diamond => "Diamond"@,
    }
}

impl UserTierType {
    /// The display name of the value.
    pub fn to_string(&self) -> (s: String)
        ensures
            s@ == user_tier_name(*self),
    {
        match self {
            UserTierType::Bronze => String::from_str("Bronze"),
            UserTierType::Silver => String::from_str("Silver"),
            UserTierType::Gold => String::from_str("Gold"),
            UserTierType::Platinum => String::from_str("Platinum"),
            UserTierType::Diamond => String::from_str("Diamond"),
        }
    }
}

impl Default for UserTierType {
    fn default() -> (r: Self)
        ensures
            r == UserTierType::Bronze,
    {
        UserTierType::Bronze
    }
}

/// Names of role values differ from one another, so a stored role name identifies its role.
pub proof fn lemma_user_role_names_distinct(a: UserRoleType, b: UserRoleType)
    ensures
        user_role_name(a) == user_role_name(b) ==> a == b,
{
    reveal_strlit("Researcher");
    reveal_strlit("Editor");
    reveal_strlit("Admin");
    reveal_strlit("Funder");
    reveal_strlit("Predictor");
    reveal_strlit("Member");
    reveal_strlit("Student");
    if user_role_name(a) == user_role_name(b) && a != b {
        assert(user_role_name(a).len() != user_role_name(b).len() || user_role_name(a)[0]
            != user_role_name(b)[0] || user_role_name(a)[1] != user_role_name(b)[1]);
    }
}

/// OAuth2 applications that may sign users in.
#[derive(Debug, Clone, Copy, PartialEq, Eq, Structural)]
pub enum NerdNuggetsOAuth2AppName {
    NerdBunny,
}

/// Categories of errors that the paper analysis reports.
#[derive(Debug, Clone, Copy, PartialEq, Eq, Structural)]
pub enum AnalysisErrorType {
    DataAnalysisError,
    LogicalFrameworkError,
    MathError,
    MethodologyError,
    ResearchQualityError,
    TechnicalPresentationError,
}

/// Error counts per category over all analysed papers.
#[derive(Debug, Clone)]
pub struct ErrorStatistics {
    pub math_errors: i64,
    pub methodology_errors: i64,
    pub logical_framework_errors: i64,
    pub data_analysis_errors: i64,
    pub technical_presentation_errors: i64,
    pub research_quality_errors: i64,
    pub total_errors: i64,
}

impl Default for ErrorStatistics {
    fn default() -> (r: Self)
        ensures
            r.math_errors == 0 && r.methodology_errors == 0 && r.logical_framework_errors == 0
                && r.data_analysis_errors == 0 && r.technical_presentation_errors == 0
                && r.research_quality_errors == 0 && r.total_errors == 0,
    {
        ErrorStatistics {
            math_errors: 0,
            methodology_errors: 0,
            logical_framework_errors: 0,
            data_analysis_errors: 0,
            technical_presentation_errors: 0,
            research_quality_errors: 0,
            total_errors: 0,
        }
    }
}

/// Platform-wide counts of papers and analyses.
#[derive(Debug, Clone)]
pub struct Statistics {
    pub total_papers: i64,
    pub total_analyses: i64,
    pub error_statistics: ErrorStatistics,
}

impl Default for Statistics {
    fn default() -> (r: Self)
        ensures
            r.total_papers == 0 && r.total_analyses == 0 && r.error_statistics.total_errors == 0
                && r.error_statistics.math_errors == 0 && r.error_statistics.methodology_errors == 0
                && r.error_statistics.logical_framework_errors == 0
                && r.error_statistics.data_analysis_errors == 0
                && r.error_statistics.technical_presentation_errors == 0
                && r.error_statistics.research_quality_errors == 0,
    {
        Statistics { total_papers: 0, total_analyses: 0, error_statistics: ErrorStatistics::default() }
    }
}

/// The parts of an analysed article.
#[derive(Debug, Clone)]
pub struct ArticleData {
    /// The article's abstract.
    pub _abstract: String,
    pub introduction: String,
    pub conclusion: String,
    pub article: String,
    pub references: Option<Vec<String>>,
}

impl Default for ArticleData {
    fn default() -> (r: Self)
        ensures
            r._abstract@ == Seq::<char>::empty(),
            r.introduction@ == Seq::<char>::empty(),
            r.conclusion@ == Seq::<char>::empty(),
            r.article@ == Seq::<char>::empty(),
            r.references is None,
    {
        ArticleData {
            _abstract: String::new(),
            introduction: String::new(),
            conclusion: String::new(),
            article: String::new(),
            references: None,
        }
    }
}

} // verus!
