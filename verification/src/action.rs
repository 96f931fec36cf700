//! Actions that the QQ client carries out: reading their parameters, and the
//! client call each one becomes.  Also the fixed answers: the supported
//! actions, the version, how many events to hand back, and how an action that
//! could not be read is answered.
use vstd::prelude::*;
use crate::decimal::{int_chars, parse_i64_spec, parse_i64_str, i64_to_string};
use crate::infos::{GroupInfo, UserInfo};
use crate::message_id::{decode_message_id, decode_spec, is_decode_error};
use crate::resp::{RespError, bad_param, group_not_exist, is_error, unsupported_action};
use crate::segment::lit;
use crate::strutil::{push_chars, str_to_chars};
use crate::model::{GroupInvite, JoinGroup, NewFriend};
use crate::qevent::{
    JoinGroupRequest, NewFriendRequest, SelfInvited, group_invite_is, group_invite_of, join_group_is, join_group_of,
    new_friend_is, new_friend_of,
};

verus! {

/// The number in a request parameter, or a bad parameter naming it.
pub fn parse_param(s: &str, name: &str) -> (r: Result<i64, RespError>)
    ensures
        match parse_i64_spec(s@) {
            Some(n) => r == Ok::<i64, RespError>(n),
            None => r matches Err(e) && is_error(e, 10003, "无效的动作请求参数"@, name@),
        },
{
    match parse_i64_str(s) {
        Some(n) => Ok(n),
        None => Err(bad_param(name)),
    }
}

/// An action the client carries out, with its parameters as they came.
#[derive(Debug)]
pub enum ClientAction {
    DeleteMessage { message_id: String },
    GetUserInfo { user_id: String },
    GetFriendList,
    GetGroupInfo { group_id: String },
    GetGroupList,
    GetGroupMemberInfo { group_id: String, user_id: String },
    GetGroupMemberList { group_id: String },
    SetGroupName { group_id: String, group_name: String },
    LeaveGroup { group_id: String },
    KickGroupMember { group_id: String, user_id: String },
    BanGroupMember { group_id: String, user_id: String, duration: u32 },
    UnbanGroupMember { group_id: String, user_id: String },
    SetGroupAdmin { group_id: String, user_id: String },
    UnsetGroupAdmin { group_id: String, user_id: String },
    SetNewFriend { user_id: String, request_id: i64, accept: bool },
    DeleteFriend { user_id: String },
    GetNewFriendRequests,
    SetJoinGroup {
        request_id: i64,
        user_id: String,
        group_id: String,
        accept: bool,
        block: Option<bool>,
        message: Option<String>,
    },
    GetJoinGroupRequests,
    SetGroupInvited { request_id: i64, group_id: String, accept: bool },
    GetGroupInviteds,
}

/// A call of the QQ client.
#[derive(Debug)]
pub enum ClientCall {
    RecallFriendMessage { uin: i64, time: i64, seqs: Vec<i32>, rands: Vec<i32> },
    RecallGroupMessage { group_code: i64, seqs: Vec<i32>, rands: Vec<i32> },
    GetSummaryInfo { uin: i64 },
    GetFriendList,
    GetGroupInfo { group_code: i64 },
    GetGroupList,
    GetGroupMemberInfo { group_code: i64, uin: i64 },
    /// Look the group up (a missing group fails), then list the members of
    /// the group with its owner.
    GetGroupMemberList { group_code: i64 },
    UpdateGroupName { group_code: i64, name: String },
    GroupQuit { group_code: i64 },
    GroupKick { group_code: i64, members: Vec<i64>, message: String, block: bool },
    GroupMute { group_code: i64, uin: i64, duration_secs: u64 },
    GroupSetAdmin { group_code: i64, uin: i64, flag: bool },
    SolveFriendSystemMessage { msg_seq: i64, req_uin: i64, accept: bool },
    DeleteFriend { uin: i64 },
    GetFriendSystemMessages,
    SolveGroupSystemMessage {
        msg_seq: i64,
        req_uin: i64,
        group_code: i64,
        is_risk: bool,
        is_invite: bool,
        accept: bool,
        block: bool,
        reason: String,
    },
    GetAllGroupSystemMessages,
}

/// Whether `r` failed for the parameter `name`.
pub open spec fn bad_param_named(r: Result<ClientCall, RespError>, name: Seq<char>) -> bool {
    r matches Err(e) && is_error(e, 10003, "无效的动作请求参数"@, name)
}

/// The client call for a group and a member, or the first parameter that is
/// no number: the group first.
pub open spec fn group_member_call(
    r: Result<ClientCall, RespError>,
    group_id: Seq<char>,
    user_id: Seq<char>,
    call: spec_fn(i64, i64) -> ClientCall,
) -> bool {
    match (parse_i64_spec(group_id), parse_i64_spec(user_id)) {
        (Some(g), Some(u)) => r == Ok::<ClientCall, RespError>(call(g, u)),
        (None, _) => bad_param_named(r, "group_id"@),
        (Some(_), None) => bad_param_named(r, "user_id"@),
    }
}

/// The client call for a group, or a bad `group_id`.
pub open spec fn group_call(r: Result<ClientCall, RespError>, group_id: Seq<char>, call: spec_fn(i64) -> ClientCall) -> bool {
    match parse_i64_spec(group_id) {
        Some(g) => r == Ok::<ClientCall, RespError>(call(g)),
        None => bad_param_named(r, "group_id"@),
    }
}

/// The client call for a user, or a bad `user_id`.
pub open spec fn user_call(r: Result<ClientCall, RespError>, user_id: Seq<char>, call: spec_fn(i64) -> ClientCall) -> bool {
    match parse_i64_spec(user_id) {
        Some(u) => r == Ok::<ClientCall, RespError>(call(u)),
        None => bad_param_named(r, "user_id"@),
    }
}

fn group_and_user(group_id: &str, user_id: &str) -> (r: Result<(i64, i64), RespError>)
    ensures
        match (parse_i64_spec(group_id@), parse_i64_spec(user_id@)) {
            (Some(g), Some(u)) => r == Ok::<(i64, i64), RespError>((g, u)),
            (None, _) => r matches Err(e) && is_error(e, 10003, "无效的动作请求参数"@, "group_id"@),
            (Some(_), None) => r matches Err(e) && is_error(e, 10003, "无效的动作请求参数"@, "user_id"@),
        },
{
    match parse_param(group_id, "group_id") {
        Err(e) => Err(e),
        Ok(g) => match parse_param(user_id, "user_id") {
            Err(e) => Err(e),
            Ok(u) => Ok((g, u)),
        },
    }
}

/// The client call an action becomes; `self_uin` is the bot's own number,
/// which answers invitations.  Numbers are read from the parameters, the
/// group before the user; a parameter that is no number fails naming it.  A
/// message identifier that cannot be decoded fails; one with a time names a
/// private message.  Unbanning is a mute of no time; a missing `block` or
/// `message` is `false` or empty.
pub fn client_call(action: ClientAction, self_uin: i64) -> (r: Result<ClientCall, RespError>)
    ensures
        match action {
            ClientAction::DeleteMessage { message_id } => match decode_spec(message_id@) {
                None => r matches Err(e) && is_decode_error(e),
                Some((t, s, rd, Some(tm))) => r matches Ok(ClientCall::RecallFriendMessage { uin, time, seqs, rands })
                    && uin == t && time == tm as i64 && seqs@ == s && rands@ == rd,
                Some((t, s, rd, None)) => r matches Ok(ClientCall::RecallGroupMessage { group_code, seqs, rands })
                    && group_code == t && seqs@ == s && rands@ == rd,
            },
            ClientAction::GetUserInfo { user_id } => user_call(r, user_id@, |u: i64| ClientCall::GetSummaryInfo { uin: u }),
            ClientAction::GetFriendList => r == Ok::<ClientCall, RespError>(ClientCall::GetFriendList),
            ClientAction::GetGroupInfo { group_id } => group_call(r, group_id@, |g: i64| ClientCall::GetGroupInfo { group_code: g }),
            ClientAction::GetGroupList => r == Ok::<ClientCall, RespError>(ClientCall::GetGroupList),
            ClientAction::GetGroupMemberInfo { group_id, user_id } => group_member_call(
                r,
                group_id@,
                user_id@,
                |g: i64, u: i64| ClientCall::GetGroupMemberInfo { group_code: g, uin: u },
            ),
            ClientAction::GetGroupMemberList { group_id } => group_call(
                r,
                group_id@,
                |g: i64| ClientCall::GetGroupMemberList { group_code: g },
            ),
            ClientAction::SetGroupName { group_id, group_name } => group_call(
                r,
                group_id@,
                |g: i64| ClientCall::UpdateGroupName { group_code: g, name: group_name },
            ),
            ClientAction::LeaveGroup { group_id } => group_call(r, group_id@, |g: i64| ClientCall::GroupQuit { group_code: g }),
            ClientAction::KickGroupMember { group_id, user_id } => match (parse_i64_spec(group_id@), parse_i64_spec(user_id@)) {
                (Some(g), Some(u)) => r matches Ok(ClientCall::GroupKick { group_code, members, message, block })
                    && group_code == g && members@ == seq![u] && message@ == Seq::<char>::empty() && !block,
                (None, _) => bad_param_named(r, "group_id"@),
                (Some(_), None) => bad_param_named(r, "user_id"@),
            },
            ClientAction::BanGroupMember { group_id, user_id, duration } => group_member_call(
                r,
                group_id@,
                user_id@,
                |g: i64, u: i64| ClientCall::GroupMute { group_code: g, uin: u, duration_secs: duration as u64 },
            ),
            ClientAction::UnbanGroupMember { group_id, user_id } => group_member_call(
                r,
                group_id@,
                user_id@,
                |g: i64, u: i64| ClientCall::GroupMute { group_code: g, uin: u, duration_secs: 0 },
            ),
            ClientAction::SetGroupAdmin { group_id, user_id } => group_member_call(
                r,
                group_id@,
                user_id@,
                |g: i64, u: i64| ClientCall::GroupSetAdmin { group_code: g, uin: u, flag: true },
            ),
            ClientAction::UnsetGroupAdmin { group_id, user_id } => group_member_call(
                r,
                group_id@,
                user_id@,
                |g: i64, u: i64| ClientCall::GroupSetAdmin { group_code: g, uin: u, flag: false },
            ),
            ClientAction::SetNewFriend { user_id, request_id, accept } => user_call(
                r,
                user_id@,
                |u: i64| ClientCall::SolveFriendSystemMessage { msg_seq: request_id, req_uin: u, accept },
            ),
            ClientAction::DeleteFriend { user_id } => user_call(r, user_id@, |u: i64| ClientCall::DeleteFriend { uin: u }),
            ClientAction::GetNewFriendRequests => r == Ok::<ClientCall, RespError>(ClientCall::GetFriendSystemMessages),
            ClientAction::SetJoinGroup { request_id, user_id, group_id, accept, block, message } => match (
                parse_i64_spec(user_id@),
                parse_i64_spec(group_id@),
            ) {
                (Some(u), Some(g)) => r matches Ok(
                    ClientCall::SolveGroupSystemMessage {
                        msg_seq,
                        req_uin,
                        group_code,
                        is_risk,
                        is_invite,
                        accept: a,
                        block: b,
                        reason,
                    },
                ) && msg_seq == request_id && req_uin == u && group_code == g && !is_risk && !is_invite && a
                    == accept && b == (block == Some(true)) && reason@ == match message {
                    Some(m) => m@,
                    None => Seq::<char>::empty(),
                },
                (None, _) => bad_param_named(r, "user_id"@),
                (Some(_), None) => bad_param_named(r, "group_id"@),
            },
            ClientAction::GetJoinGroupRequests => r == Ok::<ClientCall, RespError>(ClientCall::GetAllGroupSystemMessages),
            ClientAction::SetGroupInvited { request_id, group_id, accept } => match parse_i64_spec(group_id@) {
                Some(g) => r matches Ok(
                    ClientCall::SolveGroupSystemMessage {
                        msg_seq,
                        req_uin,
                        group_code,
                        is_risk,
                        is_invite,
                        accept: a,
                        block,
                        reason,
                    },
                ) && msg_seq == request_id && req_uin == self_uin && group_code == g && !is_risk && is_invite
                    && a == accept && !block && reason@ == Seq::<char>::empty(),
                None => bad_param_named(r, "group_id"@),
            },
            ClientAction::GetGroupInviteds => r == Ok::<ClientCall, RespError>(ClientCall::GetAllGroupSystemMessages),
        },
{
    match action {
        ClientAction::DeleteMessage { message_id } => match decode_message_id(message_id.as_str()) {
            Err(e) => Err(e),
            Ok((target, seqs, rands, time)) => match time {
                Some(t) => Ok(ClientCall::RecallFriendMessage { uin: target, time: t as i64, seqs, rands }),
                None => Ok(ClientCall::RecallGroupMessage { group_code: target, seqs, rands }),
            },
        },
        ClientAction::GetUserInfo { user_id } => match parse_param(user_id.as_str(), "user_id") {
            Ok(u) => Ok(ClientCall::GetSummaryInfo { uin: u }),
            Err(e) => Err(e),
        },
        ClientAction::GetFriendList => Ok(ClientCall::GetFriendList),
        ClientAction::GetGroupInfo { group_id } => match parse_param(group_id.as_str(), "group_id") {
            Ok(g) => Ok(ClientCall::GetGroupInfo { group_code: g }),
            Err(e) => Err(e),
        },
        ClientAction::GetGroupList => Ok(ClientCall::GetGroupList),
        ClientAction::GetGroupMemberInfo { group_id, user_id } => match group_and_user(group_id.as_str(), user_id.as_str()) {
            Ok((g, u)) => Ok(ClientCall::GetGroupMemberInfo { group_code: g, uin: u }),
            Err(e) => Err(e),
        },
        ClientAction::GetGroupMemberList { group_id } => match parse_param(group_id.as_str(), "group_id") {
            Ok(g) => Ok(ClientCall::GetGroupMemberList { group_code: g }),
            Err(e) => Err(e),
        },
        ClientAction::SetGroupName { group_id, group_name } => match parse_param(group_id.as_str(), "group_id") {
            Ok(g) => Ok(ClientCall::UpdateGroupName { group_code: g, name: group_name }),
            Err(e) => Err(e),
        },
        ClientAction::LeaveGroup { group_id } => match parse_param(group_id.as_str(), "group_id") {
            Ok(g) => Ok(ClientCall::GroupQuit { group_code: g }),
            Err(e) => Err(e),
        },
        ClientAction::KickGroupMember { group_id, user_id } => match group_and_user(group_id.as_str(), user_id.as_str()) {
            Ok((g, u)) => {
                let mut members: Vec<i64> = Vec::new();
                members.push(u);
                Ok(ClientCall::GroupKick { group_code: g, members, message: String::new(), block: false })
            },
            Err(e) => Err(e),
        },
        ClientAction::BanGroupMember { group_id, user_id, duration } => match group_and_user(group_id.as_str(), user_id.as_str()) {
            Ok((g, u)) => Ok(ClientCall::GroupMute { group_code: g, uin: u, duration_secs: duration as u64 }),
            Err(e) => Err(e),
        },
        ClientAction::UnbanGroupMember { group_id, user_id } => match group_and_user(group_id.as_str(), user_id.as_str()) {
            Ok((g, u)) => Ok(ClientCall::GroupMute { group_code: g, uin: u, duration_secs: 0 }),
            Err(e) => Err(e),
        },
        ClientAction::SetGroupAdmin { group_id, user_id } => match group_and_user(group_id.as_str(), user_id.as_str()) {
            Ok((g, u)) => Ok(ClientCall::GroupSetAdmin { group_code: g, uin: u, flag: true }),
            Err(e) => Err(e),
        },
        ClientAction::UnsetGroupAdmin { group_id, user_id } => match group_and_user(group_id.as_str(), user_id.as_str()) {
            Ok((g, u)) => Ok(ClientCall::GroupSetAdmin { group_code: g, uin: u, flag: false }),
            Err(e) => Err(e),
        },
        ClientAction::SetNewFriend { user_id, request_id, accept } => match parse_param(user_id.as_str(), "user_id") {
            Ok(u) => Ok(ClientCall::SolveFriendSystemMessage { msg_seq: request_id, req_uin: u, accept }),
            Err(e) => Err(e),
        },
        ClientAction::DeleteFriend { user_id } => match parse_param(user_id.as_str(), "user_id") {
            Ok(u) => Ok(ClientCall::DeleteFriend { uin: u }),
            Err(e) => Err(e),
        },
        ClientAction::GetNewFriendRequests => Ok(ClientCall::GetFriendSystemMessages),
        ClientAction::SetJoinGroup { request_id, user_id, group_id, accept, block, message } => {
            match parse_param(user_id.as_str(), "user_id") {
                Err(e) => Err(e),
                Ok(u) => match parse_param(group_id.as_str(), "group_id") {
                    Err(e) => Err(e),
                    Ok(g) => {
                        let b = match block {
                            Some(x) => x,
                            None => false,
                        };
                        let reason = match message {
                            Some(m) => m,
                            None => String::new(),
                        };
                        Ok(
                            ClientCall::SolveGroupSystemMessage {
                                msg_seq: request_id,
                                req_uin: u,
                                group_code: g,
                                is_risk: false,
                                is_invite: false,
                                accept,
                                block: b,
                                reason,
                            },
                        )
                    },
                },
            }
        },
        ClientAction::GetJoinGroupRequests => Ok(ClientCall::GetAllGroupSystemMessages),
        ClientAction::SetGroupInvited { request_id, group_id, accept } => match parse_param(group_id.as_str(), "group_id") {
            Ok(g) => Ok(
                ClientCall::SolveGroupSystemMessage {
                    msg_seq: request_id,
                    req_uin: self_uin,
                    group_code: g,
                    is_risk: false,
                    is_invite: true,
                    accept,
                    block: false,
                    reason: String::new(),
                },
            ),
            Err(e) => Err(e),
        },
        ClientAction::GetGroupInviteds => Ok(ClientCall::GetAllGroupSystemMessages),
    }
}

/// A group the client found, or `group_not_exist` naming the group asked
/// for.
pub fn found_group(group_id: &str, found: Option<(i64, String)>) -> (r: Result<GroupInfo, RespError>)
    ensures
        match found {
            Some((code, name)) => r matches Ok(g) && g.group_id@ == int_chars(code as int) && g.group_name == name,
            None => r matches Err(e) && is_error(e, 35003, "群不存在"@, group_id@),
        },
{
    match found {
        Some((code, name)) => Ok(GroupInfo { group_id: i64_to_string(code), group_name: name }),
        None => Err(group_not_exist(group_id)),
    }
}

/// A user as OneBot shows it: the number as text, and the nickname.
pub fn user_info(uin: i64, nickname: String) -> (u: UserInfo)
    ensures
        u.user_id@ == int_chars(uin as int),
        u.nickname == nickname,
{
    UserInfo { user_id: i64_to_string(uin), nickname }
}

/// How many cached events `get_latest_events` hands back: the limit asked
/// for, or 10 when it is not positive.
pub fn latest_events_limit(limit: i64) -> (n: u64)
    ensures
        limit <= 0 ==> n == 10,
        limit > 0 ==> n == limit,
{
    if limit <= 0 {
        10
    } else {
        limit as u64
    }
}

/// The actions this implementation supports, in the order it lists them.
pub open spec fn supported_actions_spec() -> Seq<Seq<char>> {
    seq![
        "get_latest_events"@,
        "get_supported_actions"@,
        "get_status"@,
        "get_version"@,
        "send_message"@,
        "delete_message"@,
        "get_self_info"@,
        "get_user_info"@,
        "get_friend_list"@,
        "get_group_info"@,
        "get_group_list"@,
        "get_group_member_list"@,
        "get_group_member_info"@,
        "set_group_name"@,
        "kick_group_member"@,
        "ban_group_member"@,
        "unban_group_member"@,
        "set_group_admin"@,
        "unset_group_admin"@,
        "upload_file"@,
        "upload_file_fragmented"@,
        "get_file"@,
        "get_file_fragmented"@,
        "set_new_friend"@,
        "delete_friend"@,
        "get_new_friend_request"@,
    ]
}

/// The actions this implementation supports.
pub fn get_supported_actions() -> (v: Vec<&'static str>)
    ensures
        v@.len() == supported_actions_spec().len(),
        forall|i: int| 0 <= i < v@.len() ==> #[trigger] v@[i]@ == supported_actions_spec()[i],
{
    let v: Vec<&'static str> = vec![
        "get_latest_events",
        "get_supported_actions",
        "get_status",
        "get_version",
        "send_message",
        "delete_message",
        "get_self_info",
        "get_user_info",
        "get_friend_list",
        "get_group_info",
        "get_group_list",
        "get_group_member_list",
        "get_group_member_info",
        "set_group_name",
        "kick_group_member",
        "ban_group_member",
        "unban_group_member",
        "set_group_admin",
        "unset_group_admin",
        "upload_file",
        "upload_file_fragmented",
        "get_file",
        "get_file_fragmented",
        "set_new_friend",
        "delete_friend",
        "get_new_friend_request",
    ];
    v
}

/// The implementation's version: its name, its platform, its own version and
/// the OneBot version it speaks.
#[derive(Debug)]
pub struct Version {
    pub implt: String,
    pub platform: String,
    pub version: String,
    pub onebot_version: String,
}

/// The version answer, for the implementation's own version `version`.
pub fn get_version(version: &str) -> (v: Version)
    ensures
        v.implt@ == "walle-q"@,
        v.platform@ == "qq"@,
        v.version@ == version@,
        v.onebot_version@ == "12"@,
{
    Version {
        implt: lit("walle-q"),
        platform: lit("qq"),
        version: String::from_str(version),
        onebot_version: lit("12"),
    }
}

/// Why an action could not be read: its name is another action's, or a key
/// is missing from its parameters.
#[derive(Debug)]
pub enum ActionError {
    DeclareNotMatch(String),
    MapMissedKey(String),
}

/// The answer to an action that could not be read: an unsupported action
/// naming it, or a bad parameter `missing key <key>`.
pub fn action_error(e: &ActionError) -> (r: RespError)
    ensures
        match *e {
            ActionError::DeclareNotMatch(name) => is_error(r, 10002, "不支持的动作"@, name@),
            ActionError::MapMissedKey(key) => is_error(r, 10003, "无效的动作请求参数"@, "missing key "@ + key@),
        },
{
    match e {
        ActionError::DeclareNotMatch(name) => unsupported_action(name.as_str()),
        ActionError::MapMissedKey(key) => {
            let mut d = lit("missing key ");
            let k = str_to_chars(key.as_str());
            push_chars(&mut d, &k);
            bad_param(d.as_str())
        },
    }
}

/// The users of a list the client gave: number and nickname.
pub fn user_infos(users: Vec<(i64, String)>) -> (v: Vec<UserInfo>)
    ensures
        v@.len() == users@.len(),
        forall|i: int| 0 <= i < v@.len() ==> #[trigger] v@[i].user_id@ == int_chars(users@[i].0 as int)
            && v@[i].nickname == users@[i].1,
{
    let ghost all = users@;
    let mut rest = users;
    let mut v: Vec<UserInfo> = Vec::new();
    proof {
        assert(all.skip(0) =~= all);
    }
    while rest.len() > 0
        invariant
            rest@ == all.skip(v@.len() as int),
            v@.len() <= all.len(),
            forall|i: int| 0 <= i < v@.len() ==> #[trigger] v@[i].user_id@ == int_chars(all[i].0 as int)
                && v@[i].nickname == all[i].1,
        decreases rest@.len(),
    {
        let ghost k = v@.len() as int;
        let (uin, nick) = rest.remove(0);
        assert(rest@ =~= all.skip(k + 1));
        v.push(user_info(uin, nick));
    }
    v
}

/// The groups of a list the client gave: code and name.
pub fn group_infos(groups: Vec<(i64, String)>) -> (v: Vec<GroupInfo>)
    ensures
        v@.len() == groups@.len(),
        forall|i: int| 0 <= i < v@.len() ==> #[trigger] v@[i].group_id@ == int_chars(groups@[i].0 as int)
            && v@[i].group_name == groups@[i].1,
{
    let ghost all = groups@;
    let mut rest = groups;
    let mut v: Vec<GroupInfo> = Vec::new();
    proof {
        assert(all.skip(0) =~= all);
    }
    while rest.len() > 0
        invariant
            rest@ == all.skip(v@.len() as int),
            v@.len() <= all.len(),
            forall|i: int| 0 <= i < v@.len() ==> #[trigger] v@[i].group_id@ == int_chars(all[i].0 as int)
                && v@[i].group_name == all[i].1,
        decreases rest@.len(),
    {
        let ghost k = v@.len() as int;
        let (code, name) = rest.remove(0);
        assert(rest@ =~= all.skip(k + 1));
        v.push(GroupInfo { group_id: i64_to_string(code), group_name: name });
    }
    v
}

/// The friend requests the client listed, as OneBot shows them.
pub fn new_friend_requests(requests: Vec<NewFriendRequest>) -> (v: Vec<NewFriend>)
    ensures
        v@.len() == requests@.len(),
        forall|i: int| 0 <= i < v@.len() ==> new_friend_is(#[trigger] v@[i], requests@[i]),
{
    let ghost all = requests@;
    let mut rest = requests;
    let mut v: Vec<NewFriend> = Vec::new();
    proof {
        assert(all.skip(0) =~= all);
    }
    while rest.len() > 0
        invariant
            rest@ == all.skip(v@.len() as int),
            v@.len() <= all.len(),
            forall|i: int| 0 <= i < v@.len() ==> new_friend_is(#[trigger] v@[i], all[i]),
        decreases rest@.len(),
    {
        let ghost k = v@.len() as int;
        let r = rest.remove(0);
        assert(rest@ =~= all.skip(k + 1));
        v.push(new_friend_of(r));
    }
    v
}

/// The requests to join groups the client listed, as OneBot shows them.
pub fn join_group_requests(requests: Vec<JoinGroupRequest>) -> (v: Vec<JoinGroup>)
    ensures
        v@.len() == requests@.len(),
        forall|i: int| 0 <= i < v@.len() ==> join_group_is(#[trigger] v@[i], requests@[i]),
{
    let ghost all = requests@;
    let mut rest = requests;
    let mut v: Vec<JoinGroup> = Vec::new();
    proof {
        assert(all.skip(0) =~= all);
    }
    while rest.len() > 0
        invariant
            rest@ == all.skip(v@.len() as int),
            v@.len() <= all.len(),
            forall|i: int| 0 <= i < v@.len() ==> join_group_is(#[trigger] v@[i], all[i]),
        decreases rest@.len(),
    {
        let ghost k = v@.len() as int;
        let r = rest.remove(0);
        assert(rest@ =~= all.skip(k + 1));
        v.push(join_group_of(r));
    }
    v
}

/// The invitations the client listed, as OneBot shows them.
pub fn group_invites(invites: Vec<SelfInvited>) -> (v: Vec<GroupInvite>)
    ensures
        v@.len() == invites@.len(),
        forall|i: int| 0 <= i < v@.len() ==> group_invite_is(#[trigger] v@[i], invites@[i]),
{
    let ghost all = invites@;
    let mut rest = invites;
    let mut v: Vec<GroupInvite> = Vec::new();
    proof {
        assert(all.skip(0) =~= all);
    }
    while rest.len() > 0
        invariant
            rest@ == all.skip(v@.len() as int),
            v@.len() <= all.len(),
            forall|i: int| 0 <= i < v@.len() ==> group_invite_is(#[trigger] v@[i], all[i]),
        decreases rest@.len(),
    {
        let ghost k = v@.len() as int;
        let r = rest.remove(0);
        assert(rest@ =~= all.skip(k + 1));
        v.push(group_invite_of(r));
    }
    v
}

} // verus!
