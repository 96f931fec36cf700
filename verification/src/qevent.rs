//! The events a QQ client reports, and what the bot makes of each: at most one
//! OneBot event, and a change to what it knows of its groups and friends.
use vstd::prelude::*;
use crate::decimal::{int_chars, i64_to_string, i32_to_string};
use crate::event::{
    DecreaseKind, DeleteKind, EventContent, FriendAudioMessage, FriendMessage, GroupAudioMessage,
    GroupMessage, GroupTempMessage, Status, WQEvent, group_msg_id, message_is, new_group_audio,
    new_group_msg, new_group_temp_msg, new_private_audio, new_private_msg, new_selft,
    private_msg_id, selft_is, voice_message, voice_segment, sub_type,
};
use crate::infos::{
    Infos, InfosView, GroupMemberPermission, after_own_role, after_rename, lemma_role_change_keeps_disjoint,
    roles_disjoint,
};
use crate::model::{
    Delete, Disband, FriendPoke, GroupAdminSet, GroupAdminUnset, GroupInvite, GroupMemberBan,
    GroupNameUpdate, Join, JoinGroup, Kick, Leave, NewFriend, Recall, UserName,
};
use crate::segment::{MessageChain, chain_segments, msg_chain2msg_seg_vec};
use crate::strutil::copy_string;

verus! {

/// A friend withdrew a private message.
#[derive(Debug)]
pub struct FriendMessageRecall {
    pub msg_seq: i32,
    pub friend_uin: i64,
    pub time: i64,
}

/// A member joined a group.
#[derive(Debug)]
pub struct NewMember {
    pub group_code: i64,
    pub member_uin: i64,
}

/// A member left a group; `operator_uin` is set when someone removed them.
#[derive(Debug)]
pub struct GroupLeave {
    pub group_code: i64,
    pub member_uin: i64,
    pub operator_uin: Option<i64>,
}

/// A member was muted for `duration_secs` seconds.
#[derive(Debug)]
pub struct GroupMute {
    pub group_code: i64,
    pub operator_uin: i64,
    pub target_uin: i64,
    pub duration_secs: u64,
}

/// A group message was withdrawn by its author or removed by another.
#[derive(Debug)]
pub struct GroupMessageRecall {
    pub msg_seq: i32,
    pub group_code: i64,
    pub operator_uin: i64,
    pub author_uin: i64,
    pub time: i32,
}

/// A member's role in a group changed.
#[derive(Debug)]
pub struct MemberPermissionChange {
    pub group_code: i64,
    pub member_uin: i64,
    pub new_permission: GroupMemberPermission,
}

/// Someone asks to become the bot's friend.
#[derive(Debug)]
pub struct NewFriendRequest {
    pub msg_seq: i64,
    pub message: String,
    pub req_uin: i64,
    pub req_nick: String,
}

/// Someone asks to join a group.
#[derive(Debug)]
pub struct JoinGroupRequest {
    pub msg_seq: i64,
    pub msg_time: i64,
    pub message: String,
    pub req_uin: i64,
    pub req_nick: String,
    pub group_code: i64,
    pub group_name: String,
    pub suspicious: bool,
    pub invitor_uin: Option<i64>,
    pub invitor_nick: Option<String>,
}

/// The bot was invited into a group.
#[derive(Debug)]
pub struct SelfInvited {
    pub msg_seq: i64,
    pub msg_time: i64,
    pub invitor_uin: i64,
    pub invitor_nick: String,
    pub group_code: i64,
    pub group_name: String,
}

/// A group was dissolved.
#[derive(Debug)]
pub struct GroupDisband {
    pub group_code: i64,
    pub operator_uin: i64,
}

/// A new friend.
#[derive(Debug)]
pub struct FriendInfo {
    pub uin: i64,
    pub nick: String,
}

/// A poke between the bot and a friend.
#[derive(Debug)]
pub struct Poke {
    pub sender: i64,
    pub receiver: i64,
}

/// A group got a new name.
#[derive(Debug)]
pub struct GroupRenamed {
    pub group_code: i64,
    pub operator_uin: i64,
    pub group_name: String,
}

/// A friend was removed.
#[derive(Debug)]
pub struct DeleteFriend {
    pub uin: i64,
}

/// An event the QQ client reports.
#[derive(Debug)]
pub enum QEvent {
    Login(i64),
    GroupMessage(GroupMessage),
    GroupAudioMessage(GroupAudioMessage),
    FriendMessage(FriendMessage),
    FriendAudioMessage(FriendAudioMessage),
    GroupTempMessage(GroupTempMessage),
    GroupRequest(JoinGroupRequest),
    SelfInvited(SelfInvited),
    NewFriendRequest(NewFriendRequest),
    NewMember(NewMember),
    GroupMute(GroupMute),
    FriendMessageRecall(FriendMessageRecall),
    GroupMessageRecall(GroupMessageRecall),
    NewFriend(FriendInfo),
    GroupLeave(GroupLeave),
    GroupDisband(GroupDisband),
    FriendPoke(Poke),
    GroupNameUpdate(GroupRenamed),
    DeleteFriend(DeleteFriend),
    MemberPermissionChange(MemberPermissionChange),
    KickedOffline,
    MSFOffline,
    ClientDisconnect,
}

/// Whether a message event can be given an identifier: with a database, the
/// identifier is the message's first sequence number, so it needs one.
pub open spec fn ids_available(q: QEvent, db: bool) -> bool {
    db ==> match q {
        QEvent::GroupMessage(m) => m.seqs@.len() > 0,
        QEvent::GroupAudioMessage(m) => m.seqs@.len() > 0,
        QEvent::FriendMessage(m) => m.seqs@.len() > 0,
        QEvent::FriendAudioMessage(m) => m.seqs@.len() > 0,
        QEvent::GroupTempMessage(m) => m.seqs@.len() > 0,
        _ => true,
    }
}

/// Whether a message event can be given an identifier (see
/// [`ids_available`]).
pub fn message_ids_available(q: &QEvent, db: bool) -> (b: bool)
    ensures
        b == ids_available(*q, db),
{
    if !db {
        return true;
    }
    match q {
        QEvent::GroupMessage(m) => m.seqs.len() > 0,
        QEvent::GroupAudioMessage(m) => m.seqs.len() > 0,
        QEvent::FriendMessage(m) => m.seqs.len() > 0,
        QEvent::FriendAudioMessage(m) => m.seqs.len() > 0,
        QEvent::GroupTempMessage(m) => m.seqs.len() > 0,
        _ => true,
    }
}

/// What an event does to what the bot knows: the bot's own role changes move
/// the group between its maps, a rename renames it, a removed friend is
/// forgotten.  Other events leave it as it is.
pub open spec fn infos_after(v: InfosView, q: QEvent, self_id: i64) -> InfosView {
    match q {
        QEvent::MemberPermissionChange(c) => if c.member_uin == self_id {
            after_own_role(v, c.group_code, c.new_permission)
        } else {
            v
        },
        QEvent::GroupNameUpdate(g) => after_rename(v, g.group_code, g.group_name@),
        QEvent::DeleteFriend(d) => InfosView { friends: v.friends.remove(d.uin), ..v },
        _ => v,
    }
}

/// Whether `s` is the decimal text of `n`.
pub open spec fn shows(s: String, n: int) -> bool {
    s@ == int_chars(n)
}

/// Whether `e` is the OneBot event of the QQ event `q` for the bot `self_id`,
/// whose status is `status`.  An event without a time is stamped when it is
/// sent.
pub open spec fn event_of(q: QEvent, e: WQEvent, self_id: i64, status: Status, db: bool) -> bool {
    match q {
        QEvent::Login(_) => e.time is None && e.content == (EventContent::StatusUpdate { status }),
        QEvent::KickedOffline => e.time is None && e.content == (EventContent::StatusUpdate { status }),
        QEvent::MSFOffline => e.time is None && e.content == (EventContent::StatusUpdate { status }),
        QEvent::ClientDisconnect => false,
        QEvent::GroupMessage(g) => {
            &&& e.time == Some(g.time as i64)
            &&& e.content matches EventContent::GroupMessage { message: m, group_id, names }
            &&& message_is(m, self_id, group_msg_id(db, g.group_code, g.seqs@, g.rands@),
                chain_segments(g.elements), g.from_uin)
            &&& shows(group_id, g.group_code as int)
            &&& names.group_name@ == g.group_name@
            &&& names.user_name@ == g.group_card@
        },
        QEvent::GroupAudioMessage(g) => {
            &&& e.time == Some(g.time as i64)
            &&& e.content matches EventContent::GroupMessage { message: m, group_id, names }
            &&& message_is(m, self_id, group_msg_id(db, g.group_code, g.seqs@, g.rands@),
                seq![voice_segment(g.audio_md5@, g.audio_size)], g.from_uin)
            &&& shows(group_id, g.group_code as int)
            &&& names.group_name@ == g.group_name@
            &&& names.user_name@ == g.group_card@
        },
        QEvent::FriendMessage(f) => {
            &&& e.time == Some(f.time as i64)
            &&& e.content matches EventContent::PrivateMessage { message: m, user }
            &&& message_is(m, self_id, private_msg_id(db, f.from_uin, f.time, f.seqs@, f.rands@),
                chain_segments(f.elements), f.from_uin)
            &&& user.user_name@ == f.from_nick@
        },
        QEvent::FriendAudioMessage(f) => {
            &&& e.time == Some(f.time as i64)
            &&& e.content matches EventContent::PrivateMessage { message: m, user }
            &&& message_is(m, self_id, private_msg_id(db, f.from_uin, f.time, f.seqs@, f.rands@),
                seq![voice_segment(f.audio_md5@, f.audio_size)], f.from_uin)
            &&& user.user_name@ == f.from_nick@
        },
        QEvent::GroupTempMessage(t) => {
            &&& e.time == Some(t.time as i64)
            &&& e.content matches EventContent::GroupTempMessage { message: m, temp, user }
            &&& message_is(m, self_id, private_msg_id(db, t.from_uin, t.time, t.seqs@, t.rands@),
                chain_segments(t.elements), t.from_uin)
            &&& shows(temp.group_id, t.group_code as int)
            &&& user.user_name@ == t.from_nick@
        },
        QEvent::FriendMessageRecall(r) => {
            &&& e.time == Some(r.time)
            &&& e.content matches EventContent::PrivateMessageDelete { selft, message_id, user_id }
            &&& selft_is(selft, self_id)
            &&& shows(message_id, r.msg_seq as int)
            &&& shows(user_id, r.friend_uin as int)
        },
        QEvent::NewFriend(f) => {
            &&& e.time is None
            &&& e.content matches EventContent::FriendIncrease { selft, user_id, user }
            &&& selft_is(selft, self_id)
            &&& shows(user_id, f.uin as int)
            &&& user.user_name@ == f.nick@
        },
        QEvent::NewMember(n) => {
            &&& e.time is None
            &&& e.content matches EventContent::GroupMemberIncrease { selft, group_id, user_id, operator_id, .. }
            &&& selft_is(selft, self_id)
            &&& shows(group_id, n.group_code as int)
            &&& shows(user_id, n.member_uin as int)
            &&& operator_id@ == Seq::<char>::empty()
        },
        QEvent::GroupLeave(l) => {
            &&& e.time is None
            &&& e.content matches EventContent::GroupMemberDecrease { selft, group_id, user_id, operator_id, kind }
            &&& selft_is(selft, self_id)
            &&& shows(group_id, l.group_code as int)
            &&& shows(user_id, l.member_uin as int)
            &&& match l.operator_uin {
                Some(op) => shows(operator_id, op as int) && kind is Kick,
                None => shows(operator_id, l.member_uin as int) && kind is Leave,
            }
        },
        QEvent::GroupDisband(d) => {
            &&& e.time is None
            &&& e.content matches EventContent::GroupMemberDecrease { selft, group_id, user_id, operator_id, kind }
            &&& selft_is(selft, self_id)
            &&& shows(group_id, d.group_code as int)
            &&& shows(user_id, self_id as int)
            &&& shows(operator_id, d.operator_uin as int)
            &&& kind is Disband
        },
        QEvent::GroupMute(m) => {
            &&& e.time is None
            &&& e.content matches EventContent::GroupMemberBan { selft, detail }
            &&& selft_is(selft, self_id)
            &&& shows(detail.group_id, m.group_code as int)
            &&& shows(detail.user_id, m.target_uin as int)
            &&& shows(detail.operator_id, m.operator_uin as int)
            &&& detail.duration == m.duration_secs as i64
        },
        QEvent::GroupMessageRecall(r) => {
            &&& e.time == Some(r.time as i64)
            &&& e.content matches EventContent::GroupMessageDelete { selft, message_id, group_id, user_id, operator_id, kind }
            &&& selft_is(selft, self_id)
            &&& shows(message_id, r.msg_seq as int)
            &&& shows(group_id, r.group_code as int)
            &&& shows(user_id, r.author_uin as int)
            &&& shows(operator_id, r.operator_uin as int)
            &&& if r.author_uin == r.operator_uin { kind is Recall } else { kind is Delete }
        },
        QEvent::MemberPermissionChange(c) => {
            &&& e.time is None
            &&& match c.new_permission {
                GroupMemberPermission::Member => {
                    &&& e.content matches EventContent::GroupAdminUnset { selft, detail }
                    &&& selft_is(selft, self_id)
                    &&& shows(detail.group_id, c.group_code as int)
                    &&& shows(detail.user_id, c.member_uin as int)
                    &&& detail.operator_id@ == Seq::<char>::empty()
                },
                _ => {
                    &&& e.content matches EventContent::GroupAdminSet { selft, detail }
                    &&& selft_is(selft, self_id)
                    &&& shows(detail.group_id, c.group_code as int)
                    &&& shows(detail.user_id, c.member_uin as int)
                    &&& detail.operator_id@ == Seq::<char>::empty()
                },
            }
        },
        QEvent::NewFriendRequest(r) => {
            &&& e.time is None
            &&& e.content matches EventContent::NewFriend { selft, detail }
            &&& selft_is(selft, self_id)
            &&& new_friend_is(detail, r)
        },
        QEvent::GroupRequest(r) => {
            &&& e.time == Some(r.msg_time)
            &&& e.content matches EventContent::JoinGroup { selft, detail }
            &&& selft_is(selft, self_id)
            &&& join_group_is(detail, r)
        },
        QEvent::SelfInvited(i) => {
            &&& e.time == Some(i.msg_seq)
            &&& e.content matches EventContent::GroupInvite { selft, detail }
            &&& selft_is(selft, self_id)
            &&& group_invite_is(detail, i)
        },
        QEvent::FriendPoke(p) => {
            &&& e.time is None
            &&& e.content matches EventContent::FriendPoke { selft, detail }
            &&& selft_is(selft, self_id)
            &&& shows(detail.user_id, p.sender as int)
            &&& shows(detail.receiver_id, p.receiver as int)
        },
        QEvent::GroupNameUpdate(g) => {
            &&& e.time is None
            &&& e.content matches EventContent::GroupNameUpdate { selft, detail }
            &&& selft_is(selft, self_id)
            &&& shows(detail.group_id, g.group_code as int)
            &&& detail.group_name@ == g.group_name@
            &&& shows(detail.operator_id, g.operator_uin as int)
        },
        QEvent::DeleteFriend(d) => {
            &&& e.time is None
            &&& e.content matches EventContent::FriendDecrease { selft, user_id }
            &&& selft_is(selft, self_id)
            &&& shows(user_id, d.uin as int)
        },
    }
}

fn opt_i64_to_string(v: Option<i64>) -> (r: Option<String>)
    ensures
        match v {
            Some(u) => r matches Some(s) && s@ == int_chars(u as int),
            None => r is None,
        },
{
    match v {
        Some(u) => Some(i64_to_string(u)),
        None => None,
    }
}

/// The friend request as OneBot shows it.
pub open spec fn new_friend_is(d: NewFriend, r: NewFriendRequest) -> bool {
    &&& d.request_id == r.msg_seq
    &&& shows(d.user_id, r.req_uin as int)
    &&& d.user_name@ == r.req_nick@
    &&& d.message@ == r.message@
}

/// The request to join a group as OneBot shows it.
pub open spec fn join_group_is(d: JoinGroup, r: JoinGroupRequest) -> bool {
    &&& d.request_id == r.msg_seq
    &&& shows(d.user_id, r.req_uin as int)
    &&& d.user_name@ == r.req_nick@
    &&& shows(d.group_id, r.group_code as int)
    &&& d.group_name@ == r.group_name@
    &&& d.message@ == r.message@
    &&& d.suspicious == r.suspicious
    &&& match r.invitor_uin {
        Some(u) => d.invitor_id matches Some(s) && shows(s, u as int),
        None => d.invitor_id is None,
    }
    &&& match r.invitor_nick {
        Some(n) => d.invitor_name matches Some(s) && s@ == n@,
        None => d.invitor_name is None,
    }
}

/// The invitation as OneBot shows it.
pub open spec fn group_invite_is(d: GroupInvite, i: SelfInvited) -> bool {
    &&& d.request_id == i.msg_seq
    &&& shows(d.group_id, i.group_code as int)
    &&& d.group_name@ == i.group_name@
    &&& shows(d.invitor_id, i.invitor_uin as int)
    &&& d.invitor_name@ == i.invitor_nick@
}

/// A friend request as OneBot shows it.
pub fn new_friend_of(r: NewFriendRequest) -> (d: NewFriend)
    ensures
        new_friend_is(d, r),
{
    NewFriend { request_id: r.msg_seq, user_id: i64_to_string(r.req_uin), user_name: r.req_nick, message: r.message }
}

/// A request to join a group as OneBot shows it.
pub fn join_group_of(r: JoinGroupRequest) -> (d: JoinGroup)
    ensures
        join_group_is(d, r),
{
    JoinGroup {
        request_id: r.msg_seq,
        user_id: i64_to_string(r.req_uin),
        user_name: r.req_nick,
        group_id: i64_to_string(r.group_code),
        group_name: r.group_name,
        message: r.message,
        suspicious: r.suspicious,
        invitor_id: opt_i64_to_string(r.invitor_uin),
        invitor_name: r.invitor_nick,
    }
}

/// An invitation into a group as OneBot shows it.
pub fn group_invite_of(i: SelfInvited) -> (d: GroupInvite)
    ensures
        group_invite_is(d, i),
{
    GroupInvite {
        request_id: i.msg_seq,
        group_id: i64_to_string(i.group_code),
        group_name: i.group_name,
        invitor_id: i64_to_string(i.invitor_uin),
        invitor_name: i.invitor_nick,
    }
}

/// A member leaving a group is reported with the sub type `kick` when an
/// operator removed them and `leave` when they left by themselves.
pub proof fn law_group_leave_sub_type(l: GroupLeave, e: WQEvent, self_id: i64, status: Status, db: bool)
    requires
        event_of(QEvent::GroupLeave(l), e, self_id, status, db),
    ensures
        l.operator_uin is Some ==> sub_type(e.content) == seq!['k', 'i', 'c', 'k'],
        l.operator_uin is None ==> sub_type(e.content) == seq!['l', 'e', 'a', 'v', 'e'],
{
    reveal_strlit("kick");
    reveal_strlit("leave");
}

/// The OneBot event of a QQ event, with what the event changes in `infos`.
/// A lost connection gives no event.  `status` is the bot's status, reported
/// on login and when the bot is taken offline; `db` says whether messages are
/// kept in a database, which decides how they are identified.
pub fn qevent2event(event: QEvent, infos: &mut Infos, self_id: i64, status: Status, db: bool) -> (r: Option<WQEvent>)
    requires
        ids_available(event, db),
    ensures
        r is None <==> event is ClientDisconnect,
        r matches Some(e) ==> event_of(event, e, self_id, status, db),
        final(infos)@ == infos_after(old(infos)@, event, self_id),
{
    match event {
        QEvent::Login(_) => Some(WQEvent { time: None, content: EventContent::StatusUpdate { status } }),
        QEvent::KickedOffline => Some(WQEvent { time: None, content: EventContent::StatusUpdate { status } }),
        QEvent::MSFOffline => Some(WQEvent { time: None, content: EventContent::StatusUpdate { status } }),
        QEvent::ClientDisconnect => None,
        QEvent::FriendMessage(pme) => {
            let FriendMessage { seqs, rands, time, from_uin, from_nick, elements } = pme;
            // The elements become the segments; the message is passed on without them.
            let message = msg_chain2msg_seg_vec(elements);
            Some(new_private_msg(FriendMessage {
                seqs,
                rands,
                time,
                from_uin,
                from_nick,
                elements: MessageChain { reply: None, elems: Vec::new() },
            }, message, self_id, db))
        },
        QEvent::GroupMessage(gme) => {
            let GroupMessage { seqs, rands, group_code, group_name, group_card, from_uin, time, elements } = gme;
            // The elements become the segments; the message is passed on without them.
            let message = msg_chain2msg_seg_vec(elements);
            Some(new_group_msg(GroupMessage {
                seqs,
                rands,
                group_code,
                group_name,
                group_card,
                from_uin,
                time,
                elements: MessageChain { reply: None, elems: Vec::new() },
            }, message, self_id, db))
        },
        QEvent::GroupTempMessage(gtme) => {
            let GroupTempMessage { seqs, rands, from_uin, from_nick, time, elements, group_code } = gtme;
            // The elements become the segments; the message is passed on without them.
            let message = msg_chain2msg_seg_vec(elements);
            Some(new_group_temp_msg(GroupTempMessage {
                seqs,
                rands,
                from_uin,
                from_nick,
                time,
                elements: MessageChain { reply: None, elems: Vec::new() },
                group_code,
            }, message, self_id, db))
        },
        QEvent::GroupAudioMessage(gam) => {
            let message = voice_message(&gam.audio_md5, gam.audio_size);
            Some(new_group_audio(gam, message, self_id, db))
        },
        QEvent::FriendAudioMessage(fam) => {
            let message = voice_message(&fam.audio_md5, fam.audio_size);
            Some(new_private_audio(fam, message, self_id, db))
        },
        QEvent::FriendMessageRecall(e) => Some(WQEvent {
            time: Some(e.time),
            content: EventContent::PrivateMessageDelete {
                selft: new_selft(self_id),
                message_id: i32_to_string(e.msg_seq),
                user_id: i64_to_string(e.friend_uin),
            },
        }),
        QEvent::NewFriend(e) => Some(WQEvent {
            time: None,
            content: EventContent::FriendIncrease {
                selft: new_selft(self_id),
                user_id: i64_to_string(e.uin),
                user: UserName { user_name: e.nick },
            },
        }),
        QEvent::NewMember(e) => Some(WQEvent {
            time: None,
            content: EventContent::GroupMemberIncrease {
                selft: new_selft(self_id),
                group_id: i64_to_string(e.group_code),
                user_id: i64_to_string(e.member_uin),
                operator_id: String::new(),
                join: Join {},
            },
        }),
        QEvent::GroupLeave(e) => {
            let (operator, kind) = match e.operator_uin {
                Some(op) => (op, DecreaseKind::Kick(Kick {})),
                None => (e.member_uin, DecreaseKind::Leave(Leave {})),
            };
            Some(WQEvent {
                time: None,
                content: EventContent::GroupMemberDecrease {
                    selft: new_selft(self_id),
                    group_id: i64_to_string(e.group_code),
                    user_id: i64_to_string(e.member_uin),
                    operator_id: i64_to_string(operator),
                    kind,
                },
            })
        },
        QEvent::GroupDisband(d) => Some(WQEvent {
            time: None,
            content: EventContent::GroupMemberDecrease {
                selft: new_selft(self_id),
                group_id: i64_to_string(d.group_code),
                user_id: i64_to_string(self_id),
                operator_id: i64_to_string(d.operator_uin),
                kind: DecreaseKind::Disband(Disband {}),
            },
        }),
        QEvent::GroupMute(e) => Some(WQEvent {
            time: None,
            content: EventContent::GroupMemberBan {
                selft: new_selft(self_id),
                detail: GroupMemberBan {
                    group_id: i64_to_string(e.group_code),
                    user_id: i64_to_string(e.target_uin),
                    operator_id: i64_to_string(e.operator_uin),
                    duration: e.duration_secs as i64,
                },
            },
        }),
        QEvent::GroupMessageRecall(e) => {
            let kind = if e.author_uin == e.operator_uin {
                DeleteKind::Recall(Recall {})
            } else {
                DeleteKind::Delete(Delete {})
            };
            Some(WQEvent {
                time: Some(e.time as i64),
                content: EventContent::GroupMessageDelete {
                    selft: new_selft(self_id),
                    message_id: i32_to_string(e.msg_seq),
                    group_id: i64_to_string(e.group_code),
                    user_id: i64_to_string(e.author_uin),
                    operator_id: i64_to_string(e.operator_uin),
                    kind,
                },
            })
        },
        QEvent::MemberPermissionChange(e) => {
            if e.member_uin == self_id {
                infos.set_own_role(e.group_code, e.new_permission);
            }
            let selft = new_selft(self_id);
            let group_id = i64_to_string(e.group_code);
            let user_id = i64_to_string(e.member_uin);
            match e.new_permission {
                GroupMemberPermission::Member => Some(WQEvent {
                    time: None,
                    content: EventContent::GroupAdminUnset {
                        selft,
                        detail: GroupAdminUnset { group_id, user_id, operator_id: String::new() },
                    },
                }),
                _ => Some(WQEvent {
                    time: None,
                    content: EventContent::GroupAdminSet {
                        selft,
                        detail: GroupAdminSet { group_id, user_id, operator_id: String::new() },
                    },
                }),
            }
        },
        QEvent::NewFriendRequest(fre) => Some(WQEvent {
            time: None,
            content: EventContent::NewFriend { selft: new_selft(self_id), detail: new_friend_of(fre) },
        }),
        QEvent::GroupRequest(gre) => {
            let time = gre.msg_time;
            Some(WQEvent {
                time: Some(time),
                content: EventContent::JoinGroup { selft: new_selft(self_id), detail: join_group_of(gre) },
            })
        },
        QEvent::SelfInvited(i) => {
            let time = i.msg_seq;
            Some(WQEvent {
                time: Some(time),
                content: EventContent::GroupInvite { selft: new_selft(self_id), detail: group_invite_of(i) },
            })
        },
        QEvent::FriendPoke(p) => Some(WQEvent {
            time: None,
            content: EventContent::FriendPoke {
                selft: new_selft(self_id),
                detail: FriendPoke {
                    user_id: i64_to_string(p.sender),
                    receiver_id: i64_to_string(p.receiver),
                },
            },
        }),
        QEvent::GroupNameUpdate(g) => {
            infos.rename_group(g.group_code, copy_string(&g.group_name));
            Some(WQEvent {
                time: None,
                content: EventContent::GroupNameUpdate {
                    selft: new_selft(self_id),
                    detail: GroupNameUpdate {
                        group_id: i64_to_string(g.group_code),
                        group_name: g.group_name,
                        operator_id: i64_to_string(g.operator_uin),
                    },
                },
            })
        },
        QEvent::DeleteFriend(d) => {
            infos.remove_friend(d.uin);
            Some(WQEvent {
                time: None,
                content: EventContent::FriendDecrease {
                    selft: new_selft(self_id),
                    user_id: i64_to_string(d.uin),
                },
            })
        },
    }
}

/// Whatever the client reports, a bot that holds no group in two roles still
/// holds none in two roles afterwards, and its friends change only when one
/// is removed.
pub proof fn lemma_event_keeps_roles_disjoint(v: InfosView, q: QEvent, self_id: i64)
    requires
        roles_disjoint(v),
    ensures
        roles_disjoint(infos_after(v, q, self_id)),
        !(q is DeleteFriend) ==> infos_after(v, q, self_id).friends == v.friends,
{
    match q {
        QEvent::MemberPermissionChange(c) => {
            if c.member_uin == self_id {
                lemma_role_change_keeps_disjoint(v, c.group_code, c.new_permission);
            }
        },
        QEvent::GroupNameUpdate(g) => {
            let w = after_rename(v, g.group_code, g.group_name@);
            assert(w.owned.dom() =~= v.owned.dom());
            assert(w.admined.dom() =~= v.admined.dom());
            assert(w.groups.dom() =~= v.groups.dom());
        },
        _ => {},
    }
}

} // verus!
