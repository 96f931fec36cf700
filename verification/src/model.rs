//! The extended parts of OneBot events and segments that this implementation
//! adds: detail types, sub types, platform fields and segments of QQ.
use vstd::prelude::*;
use crate::segment::lit;

verus! {

/// Marks an event as coming from this implementation, `walle-q`.
#[derive(Debug, Clone, Copy)]
pub struct WalleQ;

/// Marks an event as coming from the platform `qq`.
#[derive(Debug, Clone, Copy)]
pub struct QQ;

impl WalleQ {
    /// The name of the implementation.
    pub fn impl_name(&self) -> (s: String)
        ensures
            s@ == "walle-q"@,
    {
        lit("walle-q")
    }
}

impl QQ {
    /// The name of the platform.
    pub fn platform(&self) -> (s: String)
        ensures
            s@ == "qq"@,
    {
        lit("qq")
    }
}

/// The detail of a temporary session: the group it goes through.
#[derive(Debug)]
pub struct GroupTemp {
    pub group_id: String,
}

/// The names that come with a group message: of the group and of the sender.
#[derive(Debug)]
pub struct Names {
    pub group_name: String,
    pub user_name: String,
}

/// The name of the user an event is about.
#[derive(Debug)]
pub struct UserName {
    pub user_name: String,
}

/// A friend poked the bot, or the bot poked a friend.
#[derive(Debug)]
pub struct FriendPoke {
    pub user_id: String,
    pub receiver_id: String,
}

/// A group was renamed.
#[derive(Debug)]
pub struct GroupNameUpdate {
    pub group_id: String,
    pub group_name: String,
    pub operator_id: String,
}

/// A group member was muted for `duration` seconds.
#[derive(Debug)]
pub struct GroupMemberBan {
    pub group_id: String,
    pub user_id: String,
    pub operator_id: String,
    pub duration: i64,
}

/// A group member became an administrator.
#[derive(Debug)]
pub struct GroupAdminSet {
    pub group_id: String,
    pub user_id: String,
    pub operator_id: String,
}

/// A group member stopped being an administrator.
#[derive(Debug)]
pub struct GroupAdminUnset {
    pub group_id: String,
    pub user_id: String,
    pub operator_id: String,
}

/// Sub type: the member joined by themselves.
#[derive(Debug, Clone, Copy)]
pub struct Join {}

/// Sub type: the member was removed by another.
#[derive(Debug, Clone, Copy)]
pub struct Kick {}

/// Sub type: the member left by themselves.
#[derive(Debug, Clone, Copy)]
pub struct Leave {}

/// Sub type: the author withdrew the message.
#[derive(Debug, Clone, Copy)]
pub struct Recall {}

/// Sub type: someone other than the author removed the message.
#[derive(Debug, Clone, Copy)]
pub struct Delete {}

/// Sub type: the group was dissolved.
#[derive(Debug, Clone, Copy)]
pub struct Disband {}

impl Join {
    /// The sub type's name.
    pub fn sub_type(&self) -> (s: String)
        ensures
            s@ == "join"@,
    {
        lit("join")
    }
}

impl Kick {
    /// The sub type's name.
    pub fn sub_type(&self) -> (s: String)
        ensures
            s@ == "kick"@,
    {
        lit("kick")
    }
}

impl Leave {
    /// The sub type's name.
    pub fn sub_type(&self) -> (s: String)
        ensures
            s@ == "leave"@,
    {
        lit("leave")
    }
}

impl Recall {
    /// The sub type's name.
    pub fn sub_type(&self) -> (s: String)
        ensures
            s@ == "recall"@,
    {
        lit("recall")
    }
}

impl Delete {
    /// The sub type's name.
    pub fn sub_type(&self) -> (s: String)
        ensures
            s@ == "delete"@,
    {
        lit("delete")
    }
}

impl Disband {
    /// The sub type's name.
    pub fn sub_type(&self) -> (s: String)
        ensures
            s@ == "disband"@,
    {
        lit("disband")
    }
}

/// Someone asks to become the bot's friend.
#[derive(Debug)]
pub struct NewFriend {
    pub request_id: i64,
    pub user_id: String,
    pub user_name: String,
    pub message: String,
}

/// Someone asks to join a group the bot administers.
#[derive(Debug)]
pub struct JoinGroup {
    pub request_id: i64,
    pub user_id: String,
    pub user_name: String,
    pub group_id: String,
    pub group_name: String,
    pub message: String,
    pub suspicious: bool,
    pub invitor_id: Option<String>,
    pub invitor_name: Option<String>,
}

/// The bot is invited into a group.
#[derive(Debug)]
pub struct GroupInvite {
    pub request_id: i64,
    pub group_id: String,
    pub group_name: String,
    pub invitor_id: String,
    pub invitor_name: String,
}

/// A QQ face: by number, or by file.
#[derive(Debug)]
pub struct Face {
    pub id: Option<i32>,
    pub file: Option<String>,
}

/// An XML card of a QQ service.
#[derive(Debug)]
pub struct Xml {
    pub service_id: i32,
    pub data: String,
}

/// An image: the identifier of its stored file, where it can be fetched, and
/// whether it is shown only once.
#[derive(Debug)]
pub struct Image {
    pub file_id: String,
    pub url: Option<String>,
    pub flash: Option<bool>,
}

} // verus!
