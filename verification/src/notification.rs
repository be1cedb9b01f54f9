//! Notification kinds, the tabs under which users browse them, and their stored codes.

use vstd::prelude::*;
use crate::text::{append_decimal, decimal, str_eq};

verus! {

/// Whether a message goes to one user or to all.
#[derive(Debug, Clone, Copy, PartialEq, Eq, Structural)]
pub enum MessageType {
    One,
    All,
}

impl Default for MessageType {
    fn default() -> (r: Self)
        ensures
            r == MessageType::One,
    {
        MessageType::One
    }
}

/// The integer under which a message type is stored.
pub open spec fn message_type_code(m: MessageType) -> i32 {
    match m {
        MessageType::One => 0,
        MessageType::All => 1,
    }
}

impl From<MessageType> for i32 {
    fn from(message_type: MessageType) -> (code: i32) {
        match message_type {
            MessageType::One => 0,
            MessageType::All => 1,
        }
    }
}

impl vstd::std_specs::convert::FromSpecImpl<MessageType> for i32 {
    open spec fn obeys_from_spec() -> bool {
        true
    }

    open spec fn from_spec(v: MessageType) -> i32 {
        message_type_code(v)
    }
}

/// The message with which an unknown stored code is refused: the type's name and the code.
pub open spec fn invalid_code_message(kind_name: Seq<char>, value: int) -> Seq<char> {
    "Invalid value for "@ + kind_name + ": "@ + decimal(value)
}

pub(crate) fn invalid_code_error(kind_name: &str, value: i32) -> (e: String)
    ensures
        e@ == invalid_code_message(kind_name@, value as int),
{
    let mut e = String::from_str("Invalid value for ");
    e.append(kind_name);
    e.append(": ");
    append_decimal(&mut e, value as i64);
    e
}

impl MessageType {
    /// Reads a message type back from its stored code.
    pub fn try_from(value: i32) -> (r: Result<Self, String>)
        ensures
            value == 0 ==> r == Ok::<Self, String>(MessageType::One),
            value == 1 ==> r == Ok::<Self, String>(MessageType::All),
            !(0 <= value <= 1) ==> (r matches Err(e) && e@ == invalid_code_message(
                "MessageType"@,
                value as int,
            )),
    {
        match value {
            0 => Ok(MessageType::One),
            1 => Ok(MessageType::All),
            _ => Err(invalid_code_error("MessageType", value)),
        }
    }
}

/// What happened that a user is notified of.
#[derive(Debug, Clone, Copy, PartialEq, Eq, Structural)]
pub enum NotificationType {
    InviteEditor,
    CancelEditor,
    AcceptEditor,
    DeclineEditor,
    NewBounty,
    NewDAO,
    NewPrediction,
    NewMessage,
    ApprovedBid,
    RejectedBid,
    BidReviewed,
    NewProject,
    ProjectMilestone,
    ProjectComment,
    BountyComment,
    DAOVote,
    FundingUpdate,
    PredictionResult,
    SystemMessage,
}

impl Default for NotificationType {
    fn default() -> (r: Self)
        ensures
            r == NotificationType::InviteEditor,
    {
        NotificationType::InviteEditor
    }
}

/// The integer under which a notification type is stored: its position in the declaration.
pub open spec fn notification_type_code(t: NotificationType) -> i32 {
    match t {
        NotificationType::InviteEditor => 0,
        NotificationType::CancelEditor => 1,
        NotificationType::AcceptEditor => 2,
        NotificationType::DeclineEditor => 3,
        NotificationType::NewBounty => 4,
        NotificationType::NewDAO => 5,
        NotificationType::NewPrediction => 6,
        NotificationType::NewMessage => 7,
        NotificationType::ApprovedBid => 8,
        NotificationType::RejectedBid => 9,
        NotificationType::BidReviewed => 10,
        NotificationType::NewProject => 11,
        NotificationType::ProjectMilestone => 12,
        NotificationType::ProjectComment => 13,
        NotificationType::BountyComment => 14,
        NotificationType::DAOVote => 15,
        NotificationType::FundingUpdate => 16,
        NotificationType::PredictionResult => 17,
        NotificationType::SystemMessage => 18,
    }
}

/// The notification type stored under a code, if the code is one of `0..=18`.
pub open spec fn notification_type_of_code(code: i32) -> Option<NotificationType> {
    if code == 0 {
        Some(NotificationType::InviteEditor)
    } else if code == 1 {
        Some(NotificationType::CancelEditor)
    } else if code == 2 {
        Some(NotificationType::AcceptEditor)
    } else if code == 3 {
        Some(NotificationType::DeclineEditor)
    } else if code == 4 {
        Some(NotificationType::NewBounty)
    } else if code == 5 {
        Some(NotificationType::NewDAO)
    } else if code == 6 {
        Some(NotificationType::NewPrediction)
    } else if code == 7 {
        Some(NotificationType::NewMessage)
    } else if code == 8 {
        Some(NotificationType::ApprovedBid)
    } else if code == 9 {
        Some(NotificationType::RejectedBid)
    } else if code == 10 {
        Some(NotificationType::BidReviewed)
    } else if code == 11 {
        Some(NotificationType::NewProject)
    } else if code == 12 {
        Some(NotificationType::ProjectMilestone)
    } else if code == 13 {
        Some(NotificationType::ProjectComment)
    } else if code == 14 {
        Some(NotificationType::BountyComment)
    } else if code == 15 {
        Some(NotificationType::DAOVote)
    } else if code == 16 {
        Some(NotificationType::FundingUpdate)
    } else if code == 17 {
        Some(NotificationType::PredictionResult)
    } else if code == 18 {
        Some(NotificationType::SystemMessage)
    } else {
        None
    }
}

impl From<NotificationType> for i32 {
    fn from(notification_type: NotificationType) -> (code: i32) {
        match notification_type {
            NotificationType::InviteEditor => 0,
            NotificationType::CancelEditor => 1,
            NotificationType::AcceptEditor => 2,
            NotificationType::DeclineEditor => 3,
            NotificationType::NewBounty => 4,
            NotificationType::NewDAO => 5,
            NotificationType::NewPrediction => 6,
            NotificationType::NewMessage => 7,
            NotificationType::ApprovedBid => 8,
            NotificationType::RejectedBid => 9,
            NotificationType::BidReviewed => 10,
            NotificationType::NewProject => 11,
            NotificationType::ProjectMilestone => 12,
            NotificationType::ProjectComment => 13,
            NotificationType::BountyComment => 14,
            NotificationType::DAOVote => 15,
            NotificationType::FundingUpdate => 16,
            NotificationType::PredictionResult => 17,
            NotificationType::SystemMessage => 18,
        }
    }
}

impl vstd::std_specs::convert::FromSpecImpl<NotificationType> for i32 {
    open spec fn obeys_from_spec() -> bool {
        true
    }

    open spec fn from_spec(v: NotificationType) -> i32 {
        notification_type_code(v)
    }
}

impl NotificationType {
    /// Reads a notification type back from its stored code.
    pub fn try_from(value: i32) -> (r: Result<Self, String>)
        ensures
            notification_type_of_code(value) matches Some(t) ==> r == Ok::<Self, String>(t),
            notification_type_of_code(value) is None ==> (r matches Err(e) && e@
                == invalid_code_message("NotificationType"@, value as int)),
    {
        match value {
            0 => Ok(Self::InviteEditor),
            1 => Ok(Self::CancelEditor),
            2 => Ok(Self::AcceptEditor),
            3 => Ok(Self::DeclineEditor),
            4 => Ok(Self::NewBounty),
            5 => Ok(Self::NewDAO),
            6 => Ok(Self::NewPrediction),
            7 => Ok(Self::NewMessage),
            8 => Ok(Self::ApprovedBid),
            9 => Ok(Self::RejectedBid),
            10 => Ok(Self::BidReviewed),
            11 => Ok(Self::NewProject),
            12 => Ok(Self::ProjectMilestone),
            13 => Ok(Self::ProjectComment),
            14 => Ok(Self::BountyComment),
            15 => Ok(Self::DAOVote),
            16 => Ok(Self::FundingUpdate),
            17 => Ok(Self::PredictionResult),
            18 => Ok(Self::SystemMessage),
            _ => Err(invalid_code_error("NotificationType", value)),
        }
    }
}

/// A notification type read back from its stored code is the type that was stored, and
/// every code in `0..=18` is the code of the type read from it.
pub proof fn lemma_notification_type_codes(t: NotificationType, code: i32)
    ensures
        notification_type_of_code(notification_type_code(t)) == Some(t),
        notification_type_of_code(code) matches Some(u) ==> notification_type_code(u) == code,
        notification_type_of_code(code) is Some <==> 0 <= code <= 18,
{
}

/// The tabs under which a user browses notifications.
#[derive(Debug, Clone, Copy, PartialEq, Eq, Structural)]
pub enum NotificationTab {
    All,
    Unread,
    Funding,
    DAO,
    Projects,
    Predictions,
    Site,
}

impl Default for NotificationTab {
    fn default() -> (r: Self)
        ensures
            r == NotificationTab::All,
    {
        NotificationTab::All
    }
}

/// The name of a tab in request parameters.
pub open spec fn notification_tab_name(tab: NotificationTab) -> Seq<char> {
    match tab {
        NotificationTab::All => "all"@,
        NotificationTab::Unread => "unread"@,
        NotificationTab::Funding => "funding"@,
        NotificationTab::DAO => "dao"@,
        NotificationTab::Projects => "projects"@,
        NotificationTab::Predictions => "predictions"@,
        NotificationTab::Site => "site"@,
    }
}

/// The tab whose name is `name`, if there is one.
pub open spec fn notification_tab_of_name(name: Seq<char>) -> Option<NotificationTab> {
    if name == "all"@ {
        Some(NotificationTab::All)
    } else if name == "unread"@ {
        Some(NotificationTab::Unread)
    } else if name == "funding"@ {
        Some(NotificationTab::Funding)
    } else if name == "dao"@ {
        Some(NotificationTab::DAO)
    } else if name == "projects"@ {
        Some(NotificationTab::Projects)
    } else if name == "predictions"@ {
        Some(NotificationTab::Predictions)
    } else if name == "site"@ {
        Some(NotificationTab::Site)
    } else {
        None
    }
}

/// The message with which an unknown tab name is refused.
pub open spec fn invalid_tab_message(name: Seq<char>) -> Seq<char> {
    "Invalid notification tab: "@ + name
}

impl NotificationTab {
    /// The name of the tab in request parameters.
    pub fn as_str(&self) -> (s: &'static str)
        ensures
            s@ == notification_tab_name(*self),
    {
        match self {
            NotificationTab::All => "all",
            NotificationTab::Unread => "unread",
            NotificationTab::Funding => "funding",
            NotificationTab::DAO => "dao",
            NotificationTab::Projects => "projects",
            NotificationTab::Predictions => "predictions",
            NotificationTab::Site => "site",
        }
    }

    /// Reads a tab from its name.
    pub fn try_from(value: &str) -> (r: Result<Self, String>)
        ensures
            notification_tab_of_name(value@) matches Some(t) ==> r == Ok::<Self, String>(t),
            notification_tab_of_name(value@) is None ==> (r matches Err(e) && e@
                == invalid_tab_message(value@)),
    {
        if str_eq(value, "all") {
            Ok(NotificationTab::All)
        } else if str_eq(value, "unread") {
            Ok(NotificationTab::Unread)
        } else if str_eq(value, "funding") {
            Ok(NotificationTab::Funding)
        } else if str_eq(value, "dao") {
            Ok(NotificationTab::DAO)
        } else if str_eq(value, "projects") {
            Ok(NotificationTab::Projects)
        } else if str_eq(value, "predictions") {
            Ok(NotificationTab::Predictions)
        } else if str_eq(value, "site") {
            Ok(NotificationTab::Site)
        } else {
            let mut e = String::from_str("Invalid notification tab: ");
            e.append(value);
            Err(e)
        }
    }

    /// The notification types listed under the tab; the `All` and `Unread` tabs filter by
    /// nothing and list none.
    pub fn to_notification_types(&self) -> (types: Vec<NotificationType>)
        ensures
            types@ == notification_tab_types(*self),
    {
        match self {
            NotificationTab::All => Vec::new(),
            NotificationTab::Unread => Vec::new(),
            NotificationTab::Funding => vec![NotificationType::FundingUpdate],
            NotificationTab::DAO => vec![NotificationType::NewDAO, NotificationType::DAOVote],
            NotificationTab::Projects => vec![
                NotificationType::InviteEditor,
                NotificationType::CancelEditor,
                NotificationType::AcceptEditor,
                NotificationType::DeclineEditor,
                NotificationType::NewProject,
                NotificationType::ProjectMilestone,
                NotificationType::ProjectComment,
            ],
            NotificationTab::Predictions => vec![
                NotificationType::NewPrediction,
                NotificationType::PredictionResult,
            ],
            NotificationTab::Site => vec![
                NotificationType::NewMessage,
                NotificationType::SystemMessage,
            ],
        }
    }
}

impl From<NotificationTab> for &'static str {
    fn from(tab: NotificationTab) -> (s: &'static str) {
        match tab {
            NotificationTab::All => "all",
            NotificationTab::Unread => "unread",
            NotificationTab::Funding => "funding",
            NotificationTab::DAO => "dao",
            NotificationTab::Projects => "projects",
            NotificationTab::Predictions => "predictions",
            NotificationTab::Site => "site",
        }
    }
}

impl vstd::std_specs::convert::FromSpecImpl<NotificationTab> for &'static str {
    open spec fn obeys_from_spec() -> bool {
        true
    }

    open spec fn from_spec(tab: NotificationTab) -> &'static str {
        match tab {
            NotificationTab::All => "all",
            NotificationTab::Unread => "unread",
            NotificationTab::Funding => "funding",
            NotificationTab::DAO => "dao",
            NotificationTab::Projects => "projects",
            NotificationTab::Predictions => "predictions",
            NotificationTab::Site => "site",
        }
    }
}

/// The notification types that a tab lists.
pub open spec fn notification_tab_types(tab: NotificationTab) -> Seq<NotificationType> {
    match tab {
        NotificationTab::All => seq![],
        NotificationTab::Unread => seq![],
        NotificationTab::Funding => seq![NotificationType::FundingUpdate],
        NotificationTab::DAO => seq![NotificationType::NewDAO, NotificationType::DAOVote],
        NotificationTab::Projects => seq![
            NotificationType::InviteEditor,
            NotificationType::CancelEditor,
            NotificationType::AcceptEditor,
            NotificationType::DeclineEditor,
            NotificationType::NewProject,
            NotificationType::ProjectMilestone,
            NotificationType::ProjectComment,
        ],
        NotificationTab::Predictions => seq![
            NotificationType::NewPrediction,
            NotificationType::PredictionResult,
        ],
        NotificationTab::Site => seq![NotificationType::NewMessage, NotificationType::SystemMessage],
    }
}

/// Reading a tab from its own name gives the tab back.
pub proof fn lemma_notification_tab_name_roundtrip(tab: NotificationTab)
    ensures
        notification_tab_of_name(notification_tab_name(tab)) == Some(tab),
{
    reveal_strlit("all");
    reveal_strlit("unread");
    reveal_strlit("funding");
    reveal_strlit("dao");
    reveal_strlit("projects");
    reveal_strlit("predictions");
    reveal_strlit("site");
    let n = notification_tab_name(tab);
    assert(n.len() == 3 ==> n[0] != "all"@[0] || tab == NotificationTab::All);
    assert(n.len() != 3 ==> n != "all"@);
    assert(n.len() != 6 ==> n != "unread"@);
    assert(n.len() != 7 ==> n != "funding"@);
    assert(n.len() != 3 ==> n != "dao"@);
    assert(n.len() != 8 ==> n != "projects"@);
    assert(n.len() != 11 ==> n != "predictions"@);
    if tab != NotificationTab::All {
        assert(n != "all"@);
    }
}

/// No notification type is listed under two different topic tabs.
pub proof fn lemma_notification_tabs_disjoint(a: NotificationTab, b: NotificationTab, t: NotificationType)
    requires
        a != b,
    ensures
        !(notification_tab_types(a).contains(t) && notification_tab_types(b).contains(t)),
{
    let sa = notification_tab_types(a);
    let sb = notification_tab_types(b);
    if sa.contains(t) && sb.contains(t) {
        let i = choose|i: int| 0 <= i < sa.len() && sa[i] == t;
        let j = choose|j: int| 0 <= j < sb.len() && sb[j] == t;
        assert(false);
    }
}

/// The topic tab under which a notification type is browsed: funding updates under
/// Funding, the DAO's under DAO, editor invitations and project news under Projects,
/// predictions under Predictions, messages under Site; the bounty and bid notifications
/// under none.
pub open spec fn topic_tab_of(t: NotificationType) -> Option<NotificationTab> {
    match t {
        NotificationType::FundingUpdate => Some(NotificationTab::Funding),
        NotificationType::NewDAO | NotificationType::DAOVote => Some(NotificationTab::DAO),
        NotificationType::InviteEditor | NotificationType::CancelEditor | NotificationType::AcceptEditor
        | NotificationType::DeclineEditor | NotificationType::NewProject | NotificationType::ProjectMilestone
        | NotificationType::ProjectComment => Some(NotificationTab::Projects),
        NotificationType::NewPrediction | NotificationType::PredictionResult => Some(NotificationTab::Predictions),
        NotificationType::NewMessage | NotificationType::SystemMessage => Some(NotificationTab::Site),
        NotificationType::NewBounty | NotificationType::ApprovedBid | NotificationType::RejectedBid
        | NotificationType::BidReviewed | NotificationType::BountyComment => None,
    }
}

/// A tab lists a notification type exactly when the type is browsed under that tab:
/// every type that has a topic tab is listed there and under no other tab, `All` and
/// `Unread` list none, and no tab lists a type twice.
pub proof fn lemma_notification_tab_lists_its_types(tab: NotificationTab, t: NotificationType)
    ensures
        notification_tab_types(tab).contains(t) <==> topic_tab_of(t) == Some(tab),
        notification_tab_types(tab).no_duplicates(),
{
    let s = notification_tab_types(tab);
    if topic_tab_of(t) == Some(tab) {
        match t {
            NotificationType::FundingUpdate => assert(s[0] == t),
            NotificationType::NewDAO => assert(s[0] == t),
            NotificationType::DAOVote => assert(s[1] == t),
            NotificationType::InviteEditor => assert(s[0] == t),
            NotificationType::CancelEditor => assert(s[1] == t),
            NotificationType::AcceptEditor => assert(s[2] == t),
            NotificationType::DeclineEditor => assert(s[3] == t),
            NotificationType::NewProject => assert(s[4] == t),
            NotificationType::ProjectMilestone => assert(s[5] == t),
            NotificationType::ProjectComment => assert(s[6] == t),
            NotificationType::NewPrediction => assert(s[0] == t),
            NotificationType::PredictionResult => assert(s[1] == t),
            NotificationType::NewMessage => assert(s[0] == t),
            NotificationType::SystemMessage => assert(s[1] == t),
            _ => {},
        }
    }
    if s.contains(t) {
        let i = choose|i: int| 0 <= i < s.len() && s[i] == t;
        assert(topic_tab_of(s[i]) == Some(tab));
    }
    assert forall|i: int, j: int| 0 <= i < s.len() && 0 <= j < s.len() && i != j implies s[i] != s[j] by {
        assert(topic_tab_of(s[i]) == Some(tab));
    }
}

/// Number of notifications counted for a user.
#[derive(Debug)]
pub struct NotificationCount {
    pub count: i64,
}

} // verus!
