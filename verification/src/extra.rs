//! The extended events and actions of this implementation: their type names,
//! and the bot an action is meant for.
use vstd::prelude::*;
use crate::strutil::copy_string;

verus! {

/// The detail of a message event.
#[derive(Debug)]
pub enum WQMEDetail {
    Private { sub_type: String, user_name: String },
    Group { sub_type: String, group_id: String, group_name: String, user_name: String },
    GroupTemp { sub_type: String, group_id: String, user_name: String },
}

impl WQMEDetail {
    /// The detail type this detail is tagged with.
    pub fn detail_type(&self) -> (s: &'static str)
        ensures
            s@ == match *self {
                WQMEDetail::Private { .. } => "private"@,
                WQMEDetail::Group { .. } => "group"@,
                WQMEDetail::GroupTemp { .. } => "group_temp"@,
            },
    {
        match self {
            WQMEDetail::Private { .. } => "private",
            WQMEDetail::Group { .. } => "group",
            WQMEDetail::GroupTemp { .. } => "group_temp",
        }
    }
}

/// The extended notices.
#[derive(Debug)]
pub enum WQExtraNoticeContent {
    FriendPock { sub_type: String, user_id: String, receiver_id: String },
    GroupNameUpdate { sub_type: String, group_id: String, group_name: String, operator_id: String },
}

impl WQExtraNoticeContent {
    /// The detail type this notice is tagged with.
    pub fn detail_type(&self) -> (s: &'static str)
        ensures
            s@ == match *self {
                WQExtraNoticeContent::FriendPock { .. } => "friend_pock"@,
                WQExtraNoticeContent::GroupNameUpdate { .. } => "group_name_update"@,
            },
    {
        match self {
            WQExtraNoticeContent::FriendPock { .. } => "friend_pock",
            WQExtraNoticeContent::GroupNameUpdate { .. } => "group_name_update",
        }
    }
}

/// The requests the bot receives.
#[derive(Debug)]
pub enum WQRequestContent {
    NewFriend { sub_type: String, request_id: i64, user_id: String, user_name: String, message: String },
    JoinGroup {
        sub_type: String,
        request_id: i64,
        user_id: String,
        user_name: String,
        group_id: String,
        group_name: String,
        message: String,
        suspicious: bool,
        invitor_id: Option<String>,
        invitor_name: Option<String>,
    },
    GroupInvited {
        sub_type: String,
        request_id: i64,
        group_id: String,
        group_name: String,
        invitor_id: String,
        invitor_name: String,
    },
}

impl WQRequestContent {
    /// The event type: always `request`.
    pub fn event_type(&self) -> (s: &'static str)
        ensures
            s@ == "request"@,
    {
        "request"
    }

    /// The detail type.
    pub fn detail_type(&self) -> (s: &'static str)
        ensures
            s@ == match *self {
                WQRequestContent::NewFriend { .. } => "new_friend"@,
                WQRequestContent::JoinGroup { .. } => "join_group_request"@,
                WQRequestContent::GroupInvited { .. } => "group_invited"@,
            },
    {
        match self {
            WQRequestContent::NewFriend { .. } => "new_friend",
            WQRequestContent::JoinGroup { .. } => "join_group_request",
            WQRequestContent::GroupInvited { .. } => "group_invited",
        }
    }

    /// The sub type the request carries.
    pub fn sub_type(&self) -> (s: &String)
        ensures
            *s == match *self {
                WQRequestContent::NewFriend { sub_type, .. } => sub_type,
                WQRequestContent::JoinGroup { sub_type, .. } => sub_type,
                WQRequestContent::GroupInvited { sub_type, .. } => sub_type,
            },
    {
        match self {
            WQRequestContent::NewFriend { sub_type, .. } => sub_type,
            WQRequestContent::JoinGroup { sub_type, .. } => sub_type,
            WQRequestContent::GroupInvited { sub_type, .. } => sub_type,
        }
    }
}

/// Answer a friend request.
#[derive(Debug)]
pub struct SetNewFriend {
    pub user_id: String,
    pub request_id: i64,
    pub accept: bool,
    pub self_id: Option<String>,
}

/// Remove a friend.
#[derive(Debug)]
pub struct DeleteFriend {
    pub user_id: String,
    pub self_id: Option<String>,
}

/// Answer a request to join a group.
#[derive(Debug)]
pub struct SetJoinGroup {
    pub request_id: i64,
    pub user_id: String,
    pub group_id: String,
    pub accept: bool,
    pub block: Option<bool>,
    pub message: Option<String>,
    pub self_id: Option<String>,
}

/// Answer an invitation into a group.
#[derive(Debug)]
pub struct SetGroupInvited {
    pub request_id: i64,
    pub group_id: String,
    pub accept: bool,
    pub self_id: Option<String>,
}

/// The extended actions; the listing actions carry only the bot they are
/// meant for, when they name one as text.
#[derive(Debug)]
pub enum WQExtraAction {
    SetNewFriend(SetNewFriend),
    DeleteFriend(DeleteFriend),
    GetNewFriendRequests { self_id: Option<String> },
    SetJoinGroup(SetJoinGroup),
    GetJoinGroupRequests { self_id: Option<String> },
    SetGroupInvited(SetGroupInvited),
    GetGroupInviteds { self_id: Option<String> },
}

/// The text of an optional field, empty when it is missing.
pub open spec fn or_empty(i: Option<String>) -> Seq<char> {
    match i {
        Some(s) => s@,
        None => Seq::empty(),
    }
}

/// The text of an optional field, empty when it is missing.
pub fn default_str(i: &Option<String>) -> (s: String)
    ensures
        s@ == or_empty(*i),
{
    match i {
        Some(s) => copy_string(s),
        None => String::new(),
    }
}

impl WQExtraAction {
    /// The bot the action is meant for; empty when it names none.
    pub fn self_id(&self) -> (s: String)
        ensures
            s@ == or_empty(
                match *self {
                    WQExtraAction::SetNewFriend(a) => a.self_id,
                    WQExtraAction::DeleteFriend(a) => a.self_id,
                    WQExtraAction::GetNewFriendRequests { self_id } => self_id,
                    WQExtraAction::SetJoinGroup(a) => a.self_id,
                    WQExtraAction::GetJoinGroupRequests { self_id } => self_id,
                    WQExtraAction::SetGroupInvited(a) => a.self_id,
                    WQExtraAction::GetGroupInviteds { self_id } => self_id,
                },
            ),
    {
        match self {
            WQExtraAction::SetNewFriend(a) => default_str(&a.self_id),
            WQExtraAction::DeleteFriend(a) => default_str(&a.self_id),
            WQExtraAction::GetNewFriendRequests { self_id } => default_str(self_id),
            WQExtraAction::SetJoinGroup(a) => default_str(&a.self_id),
            WQExtraAction::GetJoinGroupRequests { self_id } => default_str(self_id),
            WQExtraAction::SetGroupInvited(a) => default_str(&a.self_id),
            WQExtraAction::GetGroupInviteds { self_id } => default_str(self_id),
        }
    }
}

} // verus!
