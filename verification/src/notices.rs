//! The notifications that the services send: who receives them, their kind, title and
//! message, and the data attached to them as named texts.

use vstd::prelude::*;
use crate::notification::{notification_type_of_code, NotificationType};
use crate::text::append_str;

verus! {

/// A notification to be stored for a user. Its data is a JSON object of texts, given
/// here as its members' names and values.
#[derive(Debug, Clone)]
pub struct CreateNotification {
    pub user_id: u128,
    pub notification_type: NotificationType,
    pub title: String,
    pub message: String,
    pub data: Option<Vec<(String, String)>>,
}

/// The data of a notification as names and texts.
pub open spec fn data_view(data: Option<Vec<(String, String)>>) -> Option<Seq<(Seq<char>, Seq<char>)>> {
    match data {
        Some(d) => Some(d@.map_values(|m: (String, String)| (m.0@, m.1@))),
        None => None,
    }
}

/// Whether the notification is for the user and has the kind, title, message and data.
pub open spec fn is_notification(
    n: CreateNotification,
    user_id: u128,
    kind: NotificationType,
    title: Seq<char>,
    message: Seq<char>,
    data: Seq<(Seq<char>, Seq<char>)>,
) -> bool {
    &&& n.user_id == user_id
    &&& n.notification_type == kind
    &&& n.title@ == title
    &&& n.message@ == message
    &&& data_view(n.data) == Some(data)
}

fn member(name: &str, value: &str) -> (m: (String, String))
    ensures
        m.0@ == name@,
        m.1@ == value@,
{
    (String::from_str(name), String::from_str(value))
}

/// Copies of the notification, one for each of the users, in order.
pub fn for_users(user_ids: &Vec<u128>, template: &CreateNotification) -> (all: Vec<CreateNotification>)
    ensures
        all@.len() == user_ids@.len(),
        forall|i: int| 0 <= i < user_ids@.len() ==> {
            &&& (#[trigger] all@[i]).user_id == user_ids@[i]
            &&& all@[i].notification_type == template.notification_type
            &&& all@[i].title@ == template.title@
            &&& all@[i].message@ == template.message@
            &&& data_view(all@[i].data) == data_view(template.data)
        },
{
    let mut all: Vec<CreateNotification> = Vec::new();
    let mut i: usize = 0;
    while i < user_ids.len()
        invariant
            i <= user_ids@.len(),
            all@.len() == i,
            forall|j: int| 0 <= j < i ==> {
                &&& (#[trigger] all@[j]).user_id == user_ids@[j]
                &&& all@[j].notification_type == template.notification_type
                &&& all@[j].title@ == template.title@
                &&& all@[j].message@ == template.message@
                &&& data_view(all@[j].data) == data_view(template.data)
            },
        decreases user_ids.len() - i,
    {
        let data = copy_data(&template.data);
        all.push(
            CreateNotification {
                user_id: user_ids[i],
                notification_type: template.notification_type,
                title: template.title.clone(),
                message: template.message.clone(),
                data,
            },
        );
        i = i + 1;
    }
    all
}

fn copy_data(data: &Option<Vec<(String, String)>>) -> (c: Option<Vec<(String, String)>>)
    ensures
        data_view(c) == data_view(*data),
{
    match data {
        Some(d) => {
            let mut v: Vec<(String, String)> = Vec::new();
            let mut i: usize = 0;
            while i < d.len()
                invariant
                    i <= d@.len(),
                    v@.len() == i,
                    forall|j: int| 0 <= j < i ==> (#[trigger] v@[j]).0@ == d@[j].0@ && v@[j].1@ == d@[j].1@,
                decreases d.len() - i,
            {
                v.push((d[i].0.clone(), d[i].1.clone()));
                i = i + 1;
            }
            assert(data_view(Some(v)) =~~= data_view(*data));
            Some(v)
        },
        None => None,
    }
}

impl CreateNotification {
    /// The `InviteEditor` notification: editor invitation.
    pub fn editor_invitation(user_id: u128, project_name: &str, admin_name: &str) -> (n: CreateNotification)
        ensures
            is_notification(
                n,
                user_id,
                NotificationType::InviteEditor,
                "Editor Invitation"@,
                admin_name@ + " has invited you to be an editor for project '"@ + project_name@ + "'"@,
                seq![("project_name"@, project_name@), ("admin_name"@, admin_name@), ("action"@, "invite_editor"@)],
            ),
    {
        let mut message = String::new();
        append_str(&mut message, admin_name);
        append_str(&mut message, " has invited you to be an editor for project '");
        append_str(&mut message, project_name);
        append_str(&mut message, "'");
        let data = vec![member("project_name", project_name), member("admin_name", admin_name), member("action", "invite_editor")];
        let n = CreateNotification {
            user_id,
            notification_type: NotificationType::InviteEditor,
            title: String::from_str("Editor Invitation"),
            message,
            data: Some(data),
        };
        assert(n.message@ =~= admin_name@ + " has invited you to be an editor for project '"@ + project_name@ + "'"@);
        assert(data_view(n.data)->0 =~= seq![("project_name"@, project_name@), ("admin_name"@, admin_name@), ("action"@, "invite_editor"@)]);
        n
    }
}

impl CreateNotification {
    /// The `DeclineEditor` notification: editor invitation declined.
    pub fn editor_declined(user_id: u128, user_name: &str, project_name: &str) -> (n: CreateNotification)
        ensures
            is_notification(
                n,
                user_id,
                NotificationType::DeclineEditor,
                "Editor Invitation Declined"@,
                user_name@ + " has declined the editor invitation for project '"@ + project_name@ + "'"@,
                seq![("user_name"@, user_name@), ("project_name"@, project_name@), ("action"@, "decline_editor"@)],
            ),
    {
        let mut message = String::new();
        append_str(&mut message, user_name);
        append_str(&mut message, " has declined the editor invitation for project '");
        append_str(&mut message, project_name);
        append_str(&mut message, "'");
        let data = vec![member("user_name", user_name), member("project_name", project_name), member("action", "decline_editor")];
        let n = CreateNotification {
            user_id,
            notification_type: NotificationType::DeclineEditor,
            title: String::from_str("Editor Invitation Declined"),
            message,
            data: Some(data),
        };
        assert(n.message@ =~= user_name@ + " has declined the editor invitation for project '"@ + project_name@ + "'"@);
        assert(data_view(n.data)->0 =~= seq![("user_name"@, user_name@), ("project_name"@, project_name@), ("action"@, "decline_editor"@)]);
        n
    }
}

impl CreateNotification {
    /// The `AcceptEditor` notification: editor invitation accepted.
    pub fn editor_accepted(user_id: u128, user_name: &str, project_name: &str) -> (n: CreateNotification)
        ensures
            is_notification(
                n,
                user_id,
                NotificationType::AcceptEditor,
                "Editor Invitation Accepted"@,
                user_name@ + " has accepted the editor invitation for project '"@ + project_name@ + "'"@,
                seq![("user_name"@, user_name@), ("project_name"@, project_name@), ("action"@, "accept_editor"@)],
            ),
    {
        let mut message = String::new();
        append_str(&mut message, user_name);
        append_str(&mut message, " has accepted the editor invitation for project '");
        append_str(&mut message, project_name);
        append_str(&mut message, "'");
        let data = vec![member("user_name", user_name), member("project_name", project_name), member("action", "accept_editor")];
        let n = CreateNotification {
            user_id,
            notification_type: NotificationType::AcceptEditor,
            title: String::from_str("Editor Invitation Accepted"),
            message,
            data: Some(data),
        };
        assert(n.message@ =~= user_name@ + " has accepted the editor invitation for project '"@ + project_name@ + "'"@);
        assert(data_view(n.data)->0 =~= seq![("user_name"@, user_name@), ("project_name"@, project_name@), ("action"@, "accept_editor"@)]);
        n
    }
}

impl CreateNotification {
    /// The `NewBounty` notification: new bounty available.
    pub fn new_bounty(user_id: u128, bounty_title: &str, creator_name: &str) -> (n: CreateNotification)
        ensures
            is_notification(
                n,
                user_id,
                NotificationType::NewBounty,
                "New Bounty Available"@,
                creator_name@ + " has created a new bounty: '"@ + bounty_title@ + "'"@,
                seq![("bounty_title"@, bounty_title@), ("creator_name"@, creator_name@), ("action"@, "new_bounty"@)],
            ),
    {
        let mut message = String::new();
        append_str(&mut message, creator_name);
        append_str(&mut message, " has created a new bounty: '");
        append_str(&mut message, bounty_title);
        append_str(&mut message, "'");
        let data = vec![member("bounty_title", bounty_title), member("creator_name", creator_name), member("action", "new_bounty")];
        let n = CreateNotification {
            user_id,
            notification_type: NotificationType::NewBounty,
            title: String::from_str("New Bounty Available"),
            message,
            data: Some(data),
        };
        assert(n.message@ =~= creator_name@ + " has created a new bounty: '"@ + bounty_title@ + "'"@);
        assert(data_view(n.data)->0 =~= seq![("bounty_title"@, bounty_title@), ("creator_name"@, creator_name@), ("action"@, "new_bounty"@)]);
        n
    }
}

impl CreateNotification {
    /// The `NewDAO` notification: new dao created.
    pub fn new_dao(user_id: u128, dao_name: &str, creator_name: &str) -> (n: CreateNotification)
        ensures
            is_notification(
                n,
                user_id,
                NotificationType::NewDAO,
                "New DAO Created"@,
                creator_name@ + " has created a new DAO: '"@ + dao_name@ + "'"@,
                seq![("dao_name"@, dao_name@), ("creator_name"@, creator_name@), ("action"@, "new_dao"@)],
            ),
    {
        let mut message = String::new();
        append_str(&mut message, creator_name);
        append_str(&mut message, " has created a new DAO: '");
        append_str(&mut message, dao_name);
        append_str(&mut message, "'");
        let data = vec![member("dao_name", dao_name), member("creator_name", creator_name), member("action", "new_dao")];
        let n = CreateNotification {
            user_id,
            notification_type: NotificationType::NewDAO,
            title: String::from_str("New DAO Created"),
            message,
            data: Some(data),
        };
        assert(n.message@ =~= creator_name@ + " has created a new DAO: '"@ + dao_name@ + "'"@);
        assert(data_view(n.data)->0 =~= seq![("dao_name"@, dao_name@), ("creator_name"@, creator_name@), ("action"@, "new_dao"@)]);
        n
    }
}

impl CreateNotification {
    /// The `NewPrediction` notification: new prediction market.
    pub fn new_prediction(user_id: u128, prediction_title: &str, creator_name: &str) -> (n: CreateNotification)
        ensures
            is_notification(
                n,
                user_id,
                NotificationType::NewPrediction,
                "New Prediction Market"@,
                creator_name@ + " has created a new prediction: '"@ + prediction_title@ + "'"@,
                seq![("prediction_title"@, prediction_title@), ("creator_name"@, creator_name@), ("action"@, "new_prediction"@)],
            ),
    {
        let mut message = String::new();
        append_str(&mut message, creator_name);
        append_str(&mut message, " has created a new prediction: '");
        append_str(&mut message, prediction_title);
        append_str(&mut message, "'");
        let data = vec![member("prediction_title", prediction_title), member("creator_name", creator_name), member("action", "new_prediction")];
        let n = CreateNotification {
            user_id,
            notification_type: NotificationType::NewPrediction,
            title: String::from_str("New Prediction Market"),
            message,
            data: Some(data),
        };
        assert(n.message@ =~= creator_name@ + " has created a new prediction: '"@ + prediction_title@ + "'"@);
        assert(data_view(n.data)->0 =~= seq![("prediction_title"@, prediction_title@), ("creator_name"@, creator_name@), ("action"@, "new_prediction"@)]);
        n
    }
}

impl CreateNotification {
    /// The `ApprovedBid` notification: bid approved.
    pub fn bid_approved(user_id: u128, bounty_title: &str) -> (n: CreateNotification)
        ensures
            is_notification(
                n,
                user_id,
                NotificationType::ApprovedBid,
                "Bid Approved"@,
                "Your bid for '"@ + bounty_title@ + "' has been approved!"@,
                seq![("bounty_title"@, bounty_title@), ("action"@, "bid_approved"@)],
            ),
    {
        let mut message = String::new();
        append_str(&mut message, "Your bid for '");
        append_str(&mut message, bounty_title);
        append_str(&mut message, "' has been approved!");
        let data = vec![member("bounty_title", bounty_title), member("action", "bid_approved")];
        let n = CreateNotification {
            user_id,
            notification_type: NotificationType::ApprovedBid,
            title: String::from_str("Bid Approved"),
            message,
            data: Some(data),
        };
        assert(n.message@ =~= "Your bid for '"@ + bounty_title@ + "' has been approved!"@);
        assert(data_view(n.data)->0 =~= seq![("bounty_title"@, bounty_title@), ("action"@, "bid_approved"@)]);
        n
    }
}

impl CreateNotification {
    /// The `RejectedBid` notification: bid rejected.
    pub fn bid_rejected(user_id: u128, bounty_title: &str) -> (n: CreateNotification)
        ensures
            is_notification(
                n,
                user_id,
                NotificationType::RejectedBid,
                "Bid Rejected"@,
                "Your bid for '"@ + bounty_title@ + "' has been rejected"@,
                seq![("bounty_title"@, bounty_title@), ("action"@, "bid_rejected"@)],
            ),
    {
        let mut message = String::new();
        append_str(&mut message, "Your bid for '");
        append_str(&mut message, bounty_title);
        append_str(&mut message, "' has been rejected");
        let data = vec![member("bounty_title", bounty_title), member("action", "bid_rejected")];
        let n = CreateNotification {
            user_id,
            notification_type: NotificationType::RejectedBid,
            title: String::from_str("Bid Rejected"),
            message,
            data: Some(data),
        };
        assert(n.message@ =~= "Your bid for '"@ + bounty_title@ + "' has been rejected"@);
        assert(data_view(n.data)->0 =~= seq![("bounty_title"@, bounty_title@), ("action"@, "bid_rejected"@)]);
        n
    }
}

impl CreateNotification {
    /// The `BidReviewed` notification: bid under review.
    pub fn bid_reviewed(user_id: u128, bounty_title: &str) -> (n: CreateNotification)
        ensures
            is_notification(
                n,
                user_id,
                NotificationType::BidReviewed,
                "Bid Under Review"@,
                "Your bid for '"@ + bounty_title@ + "' is currently under review"@,
                seq![("bounty_title"@, bounty_title@), ("action"@, "bid_reviewed"@)],
            ),
    {
        let mut message = String::new();
        append_str(&mut message, "Your bid for '");
        append_str(&mut message, bounty_title);
        append_str(&mut message, "' is currently under review");
        let data = vec![member("bounty_title", bounty_title), member("action", "bid_reviewed")];
        let n = CreateNotification {
            user_id,
            notification_type: NotificationType::BidReviewed,
            title: String::from_str("Bid Under Review"),
            message,
            data: Some(data),
        };
        assert(n.message@ =~= "Your bid for '"@ + bounty_title@ + "' is currently under review"@);
        assert(data_view(n.data)->0 =~= seq![("bounty_title"@, bounty_title@), ("action"@, "bid_reviewed"@)]);
        n
    }
}

impl CreateNotification {
    /// The `NewProject` notification: new project created.
    pub fn new_project(user_id: u128, project_name: &str, creator_name: &str) -> (n: CreateNotification)
        ensures
            is_notification(
                n,
                user_id,
                NotificationType::NewProject,
                "New Project Created"@,
                creator_name@ + " has created a new project: '"@ + project_name@ + "'"@,
                seq![("project_name"@, project_name@), ("creator_name"@, creator_name@), ("action"@, "new_project"@)],
            ),
    {
        let mut message = String::new();
        append_str(&mut message, creator_name);
        append_str(&mut message, " has created a new project: '");
        append_str(&mut message, project_name);
        append_str(&mut message, "'");
        let data = vec![member("project_name", project_name), member("creator_name", creator_name), member("action", "new_project")];
        let n = CreateNotification {
            user_id,
            notification_type: NotificationType::NewProject,
            title: String::from_str("New Project Created"),
            message,
            data: Some(data),
        };
        assert(n.message@ =~= creator_name@ + " has created a new project: '"@ + project_name@ + "'"@);
        assert(data_view(n.data)->0 =~= seq![("project_name"@, project_name@), ("creator_name"@, creator_name@), ("action"@, "new_project"@)]);
        n
    }
}

impl CreateNotification {
    /// The `ProjectMilestone` notification: project milestone update.
    pub fn project_milestone(user_id: u128, project_name: &str, milestone_name: &str) -> (n: CreateNotification)
        ensures
            is_notification(
                n,
                user_id,
                NotificationType::ProjectMilestone,
                "Project Milestone Update"@,
                "Milestone '"@ + milestone_name@ + "' has been completed for project '"@ + project_name@ + "'"@,
                seq![("project_name"@, project_name@), ("milestone_name"@, milestone_name@), ("action"@, "project_milestone"@)],
            ),
    {
        let mut message = String::new();
        append_str(&mut message, "Milestone '");
        append_str(&mut message, milestone_name);
        append_str(&mut message, "' has been completed for project '");
        append_str(&mut message, project_name);
        append_str(&mut message, "'");
        let data = vec![member("project_name", project_name), member("milestone_name", milestone_name), member("action", "project_milestone")];
        let n = CreateNotification {
            user_id,
            notification_type: NotificationType::ProjectMilestone,
            title: String::from_str("Project Milestone Update"),
            message,
            data: Some(data),
        };
        assert(n.message@ =~= "Milestone '"@ + milestone_name@ + "' has been completed for project '"@ + project_name@ + "'"@);
        assert(data_view(n.data)->0 =~= seq![("project_name"@, project_name@), ("milestone_name"@, milestone_name@), ("action"@, "project_milestone"@)]);
        n
    }
}

impl CreateNotification {
    /// The `ProjectComment` notification: new project comment.
    pub fn project_comment(user_id: u128, project_name: &str, commenter_name: &str) -> (n: CreateNotification)
        ensures
            is_notification(
                n,
                user_id,
                NotificationType::ProjectComment,
                "New Project Comment"@,
                commenter_name@ + " commented on project '"@ + project_name@ + "'"@,
                seq![("project_name"@, project_name@), ("commenter_name"@, commenter_name@), ("action"@, "project_comment"@)],
            ),
    {
        let mut message = String::new();
        append_str(&mut message, commenter_name);
        append_str(&mut message, " commented on project '");
        append_str(&mut message, project_name);
        append_str(&mut message, "'");
        let data = vec![member("project_name", project_name), member("commenter_name", commenter_name), member("action", "project_comment")];
        let n = CreateNotification {
            user_id,
            notification_type: NotificationType::ProjectComment,
            title: String::from_str("New Project Comment"),
            message,
            data: Some(data),
        };
        assert(n.message@ =~= commenter_name@ + " commented on project '"@ + project_name@ + "'"@);
        assert(data_view(n.data)->0 =~= seq![("project_name"@, project_name@), ("commenter_name"@, commenter_name@), ("action"@, "project_comment"@)]);
        n
    }
}

impl CreateNotification {
    /// The `BountyComment` notification: new bounty comment.
    pub fn bounty_comment(user_id: u128, bounty_title: &str, commenter_name: &str) -> (n: CreateNotification)
        ensures
            is_notification(
                n,
                user_id,
                NotificationType::BountyComment,
                "New Bounty Comment"@,
                commenter_name@ + " commented on bounty '"@ + bounty_title@ + "'"@,
                seq![("bounty_title"@, bounty_title@), ("commenter_name"@, commenter_name@), ("action"@, "bounty_comment"@)],
            ),
    {
        let mut message = String::new();
        append_str(&mut message, commenter_name);
        append_str(&mut message, " commented on bounty '");
        append_str(&mut message, bounty_title);
        append_str(&mut message, "'");
        let data = vec![member("bounty_title", bounty_title), member("commenter_name", commenter_name), member("action", "bounty_comment")];
        let n = CreateNotification {
            user_id,
            notification_type: NotificationType::BountyComment,
            title: String::from_str("New Bounty Comment"),
            message,
            data: Some(data),
        };
        assert(n.message@ =~= commenter_name@ + " commented on bounty '"@ + bounty_title@ + "'"@);
        assert(data_view(n.data)->0 =~= seq![("bounty_title"@, bounty_title@), ("commenter_name"@, commenter_name@), ("action"@, "bounty_comment"@)]);
        n
    }
}

impl CreateNotification {
    /// The `DAOVote` notification: dao vote required.
    pub fn dao_vote(user_id: u128, dao_name: &str, proposal_title: &str) -> (n: CreateNotification)
        ensures
            is_notification(
                n,
                user_id,
                NotificationType::DAOVote,
                "DAO Vote Required"@,
                "A new proposal '"@ + proposal_title@ + "' requires your vote in DAO '"@ + dao_name@ + "'"@,
                seq![("dao_name"@, dao_name@), ("proposal_title"@, proposal_title@), ("action"@, "dao_vote"@)],
            ),
    {
        let mut message = String::new();
        append_str(&mut message, "A new proposal '");
        append_str(&mut message, proposal_title);
        append_str(&mut message, "' requires your vote in DAO '");
        append_str(&mut message, dao_name);
        append_str(&mut message, "'");
        let data = vec![member("dao_name", dao_name), member("proposal_title", proposal_title), member("action", "dao_vote")];
        let n = CreateNotification {
            user_id,
            notification_type: NotificationType::DAOVote,
            title: String::from_str("DAO Vote Required"),
            message,
            data: Some(data),
        };
        assert(n.message@ =~= "A new proposal '"@ + proposal_title@ + "' requires your vote in DAO '"@ + dao_name@ + "'"@);
        assert(data_view(n.data)->0 =~= seq![("dao_name"@, dao_name@), ("proposal_title"@, proposal_title@), ("action"@, "dao_vote"@)]);
        n
    }
}

impl CreateNotification {
    /// The `FundingUpdate` notification: funding update.
    pub fn funding_update(user_id: u128, project_name: &str, funding_amount: &str) -> (n: CreateNotification)
        ensures
            is_notification(
                n,
                user_id,
                NotificationType::FundingUpdate,
                "Funding Update"@,
                "Project '"@ + project_name@ + "' has received "@ + funding_amount@ + " in funding"@,
                seq![("project_name"@, project_name@), ("funding_amount"@, funding_amount@), ("action"@, "funding_update"@)],
            ),
    {
        let mut message = String::new();
        append_str(&mut message, "Project '");
        append_str(&mut message, project_name);
        append_str(&mut message, "' has received ");
        append_str(&mut message, funding_amount);
        append_str(&mut message, " in funding");
        let data = vec![member("project_name", project_name), member("funding_amount", funding_amount), member("action", "funding_update")];
        let n = CreateNotification {
            user_id,
            notification_type: NotificationType::FundingUpdate,
            title: String::from_str("Funding Update"),
            message,
            data: Some(data),
        };
        assert(n.message@ =~= "Project '"@ + project_name@ + "' has received "@ + funding_amount@ + " in funding"@);
        assert(data_view(n.data)->0 =~= seq![("project_name"@, project_name@), ("funding_amount"@, funding_amount@), ("action"@, "funding_update"@)]);
        n
    }
}

impl CreateNotification {
    /// The `PredictionResult` notification: prediction result.
    pub fn prediction_result(user_id: u128, prediction_title: &str, result: &str) -> (n: CreateNotification)
        ensures
            is_notification(
                n,
                user_id,
                NotificationType::PredictionResult,
                "Prediction Result"@,
                "Prediction '"@ + prediction_title@ + "' has resolved: "@ + result@,
                seq![("prediction_title"@, prediction_title@), ("result"@, result@), ("action"@, "prediction_result"@)],
            ),
    {
        let mut message = String::new();
        append_str(&mut message, "Prediction '");
        append_str(&mut message, prediction_title);
        append_str(&mut message, "' has resolved: ");
        append_str(&mut message, result);
        let data = vec![member("prediction_title", prediction_title), member("result", result), member("action", "prediction_result")];
        let n = CreateNotification {
            user_id,
            notification_type: NotificationType::PredictionResult,
            title: String::from_str("Prediction Result"),
            message,
            data: Some(data),
        };
        assert(n.message@ =~= "Prediction '"@ + prediction_title@ + "' has resolved: "@ + result@);
        assert(data_view(n.data)->0 =~= seq![("prediction_title"@, prediction_title@), ("result"@, result@), ("action"@, "prediction_result"@)]);
        n
    }
}

impl CreateNotification {
    /// A `SystemMessage` notification with the given title and message.
    pub fn system_message(user_id: u128, title: &str, message: &str) -> (n: CreateNotification)
        ensures
            is_notification(n, user_id, NotificationType::SystemMessage, title@, message@, seq![("action"@, "system_message"@)]),
    {
        let data = vec![member("action", "system_message")];
        let n = CreateNotification {
            user_id,
            notification_type: NotificationType::SystemMessage,
            title: String::from_str(title),
            message: String::from_str(message),
            data: Some(data),
        };
        assert(data_view(n.data)->0 =~= seq![("action"@, "system_message"@)]);
        n
    }
}

/// A notification as stored: its kind as its code, and its data as JSON text.
#[derive(Debug, Clone)]
pub struct Notification {
    pub id: i64,
    pub user_id: u128,
    pub notification_type: i32,
    pub title: String,
    pub message: String,
    pub data: Option<String>,
    pub is_read: bool,
    pub created_at: i64,
    pub updated_at: i64,
}

/// A notification as it is sent to its user.
#[derive(Debug, Clone)]
pub struct NotificationResponse {
    pub id: i64,
    pub user_id: u128,
    pub notification_type: NotificationType,
    pub title: String,
    pub message: String,
    pub data: Option<String>,
    pub is_read: bool,
    pub created_at: i64,
    pub updated_at: i64,
}

impl NotificationResponse {
    /// The notification as sent: its stored code read as its kind, an unknown code as the
    /// first kind (`InviteEditor`); every other field kept.
    pub fn from(notification: Notification) -> (r: NotificationResponse)
        ensures
            r.id == notification.id,
            r.user_id == notification.user_id,
            r.notification_type == match notification_type_of_code(notification.notification_type) {
                Some(t) => t,
                None => NotificationType::InviteEditor,
            },
            r.title == notification.title,
            r.message == notification.message,
            r.data == notification.data,
            r.is_read == notification.is_read,
            r.created_at == notification.created_at,
            r.updated_at == notification.updated_at,
    {
        let notification_type = match NotificationType::try_from(notification.notification_type) {
            Ok(t) => t,
            Err(_) => NotificationType::default(),
        };
        NotificationResponse {
            id: notification.id,
            user_id: notification.user_id,
            notification_type,
            title: notification.title,
            message: notification.message,
            data: notification.data,
            is_read: notification.is_read,
            created_at: notification.created_at,
            updated_at: notification.updated_at,
        }
    }
}

/// What the store answered while the notifications of many users are stored one by one.
#[derive(Debug, Clone)]
pub enum FanOutEvent {
    /// Storing starts.
    Begin,
    /// The notification of the user at `index` was stored, or failed with the error.
    Stored { index: usize, error: Option<crate::error::ApiError> },
}

/// What to do next while the notifications of many users are stored one by one.
#[derive(Debug, Clone)]
pub enum FanOutAction {
    /// Store the notification of the user at `index`.
    Store { index: usize },
    /// Every notification is stored.
    Succeed,
    /// Storing stops at the first failure, with its error; the users after it get none.
    Fail { error: crate::error::ApiError },
}

/// One step of storing the notifications of `total` users in order, stopping at the
/// first one that fails.
pub fn fan_out_step(total: usize, event: FanOutEvent) -> (action: FanOutAction)
    ensures
        match event {
            FanOutEvent::Begin => if total == 0 {
                action is Succeed
            } else {
                action matches FanOutAction::Store { index } && index == 0
            },
            FanOutEvent::Stored { index, error } => match error {
                Some(e) => action matches FanOutAction::Fail { error } && error == e,
                None => if index + 1 < total {
                    action matches FanOutAction::Store { index: next } && next == index + 1
                } else {
                    action is Succeed
                },
            },
        },
{
    match event {
        FanOutEvent::Begin => if total == 0 {
            FanOutAction::Succeed
        } else {
            FanOutAction::Store { index: 0 }
        },
        FanOutEvent::Stored { index, error } => match error {
            Some(e) => FanOutAction::Fail { error: e },
            None => if index < total && index + 1 < total {
                FanOutAction::Store { index: index + 1 }
            } else {
                FanOutAction::Succeed
            },
        },
    }
}

} // verus!
