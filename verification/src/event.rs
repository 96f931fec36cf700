//! OneBot events, and the mapping of QQ client events to them.
//!
//! Each QQ event the client reports becomes at most one OneBot event: a
//! message, a notice, a request or a status update.  Some events also change
//! what the bot knows of its groups and friends.
use vstd::prelude::*;
use crate::decimal::{int_chars, i64_to_string, i32_to_string};
use crate::hexcode::{hex_encode_spec, media_id_spec, hex_media_id};
use crate::infos::{Infos, InfosView, GroupMemberPermission, after_own_role, after_rename, roles_disjoint};
use crate::message_id::{group_message_id_spec, private_message_id_spec, new_group_message_id, new_private_message_id};
use crate::segment::{
    MsgSegment, MsgSegmentView, MessageChain, Value, ValueView, segments_view, chain_segments,
    msg_chain2msg_seg_vec, alt_message, alt_known, alt_summary, known_alts, lit, seg, str_entry,
};
use crate::strutil::copy_string;
use crate::database::MessageId;
use crate::model::{
    Delete, Disband, FriendPoke, GroupAdminSet, GroupAdminUnset, GroupInvite, GroupMemberBan,
    GroupNameUpdate, GroupTemp, Join, JoinGroup, Kick, Leave, Names, NewFriend, Recall, UserName,
};

verus! {

/// The bot an event belongs to: its QQ number as text, and the platform `qq`.
#[derive(Debug)]
pub struct Selft {
    pub user_id: String,
    pub platform: String,
}

/// Whether the bot is working and online.
#[derive(Debug, Clone, Copy, PartialEq, Eq)]
pub struct Status {
    pub good: bool,
    pub online: bool,
}

/// The message part of a message event.
#[derive(Debug)]
pub struct MessageContent {
    pub selft: Selft,
    pub message_id: String,
    pub message: Vec<MsgSegment>,
    pub alt_message: String,
    pub user_id: String,
}

/// How a member left a group.
#[derive(Debug, Clone, Copy)]
pub enum DecreaseKind {
    Kick(Kick),
    Leave(Leave),
    Disband(Disband),
}

/// Whether a group message was withdrawn by its author or removed by another.
#[derive(Debug, Clone, Copy)]
pub enum DeleteKind {
    Recall(Recall),
    Delete(Delete),
}

/// The content of a OneBot event.
#[derive(Debug)]
pub enum EventContent {
    StatusUpdate { status: Status },
    PrivateMessage { message: MessageContent, user: UserName },
    GroupMessage { message: MessageContent, group_id: String, names: Names },
    GroupTempMessage { message: MessageContent, temp: GroupTemp, user: UserName },
    PrivateMessageDelete { selft: Selft, message_id: String, user_id: String },
    FriendIncrease { selft: Selft, user_id: String, user: UserName },
    GroupMemberIncrease {
        selft: Selft,
        group_id: String,
        user_id: String,
        operator_id: String,
        join: Join,
    },
    GroupMemberDecrease {
        selft: Selft,
        group_id: String,
        user_id: String,
        operator_id: String,
        kind: DecreaseKind,
    },
    GroupMemberBan { selft: Selft, detail: GroupMemberBan },
    GroupMessageDelete {
        selft: Selft,
        message_id: String,
        group_id: String,
        user_id: String,
        operator_id: String,
        kind: DeleteKind,
    },
    GroupAdminSet { selft: Selft, detail: GroupAdminSet },
    GroupAdminUnset { selft: Selft, detail: GroupAdminUnset },
    NewFriend { selft: Selft, detail: NewFriend },
    JoinGroup { selft: Selft, detail: JoinGroup },
    GroupInvite { selft: Selft, detail: GroupInvite },
    FriendPoke { selft: Selft, detail: FriendPoke },
    GroupNameUpdate { selft: Selft, detail: GroupNameUpdate },
    FriendDecrease { selft: Selft, user_id: String },
}

/// A OneBot event: its time in seconds when the QQ event carries one (else
/// the time it is handled at), and its content.
#[derive(Debug)]
pub struct WQEvent {
    pub time: Option<i64>,
    pub content: EventContent,
}

/// The event type: `meta`, `message`, `notice` or `request`.
pub open spec fn event_type(c: EventContent) -> Seq<char> {
    match c {
        EventContent::StatusUpdate { .. } => "meta"@,
        EventContent::PrivateMessage { .. } => "message"@,
        EventContent::GroupMessage { .. } => "message"@,
        EventContent::GroupTempMessage { .. } => "message"@,
        EventContent::NewFriend { .. } => "request"@,
        EventContent::JoinGroup { .. } => "request"@,
        EventContent::GroupInvite { .. } => "request"@,
        _ => "notice"@,
    }
}

/// The event's detail type.
pub open spec fn detail_type(c: EventContent) -> Seq<char> {
    match c {
        EventContent::StatusUpdate { .. } => "status_update"@,
        EventContent::PrivateMessage { .. } => "private"@,
        EventContent::GroupMessage { .. } => "group"@,
        EventContent::GroupTempMessage { .. } => "group_temp"@,
        EventContent::PrivateMessageDelete { .. } => "private_message_delete"@,
        EventContent::FriendIncrease { .. } => "friend_increase"@,
        EventContent::GroupMemberIncrease { .. } => "group_member_increase"@,
        EventContent::GroupMemberDecrease { .. } => "group_member_decrease"@,
        EventContent::GroupMemberBan { .. } => "group_member_ban"@,
        EventContent::GroupMessageDelete { .. } => "group_message_delete"@,
        EventContent::GroupAdminSet { .. } => "group_admin_set"@,
        EventContent::GroupAdminUnset { .. } => "group_admin_unset"@,
        EventContent::NewFriend { .. } => "new_friend"@,
        EventContent::JoinGroup { .. } => "join_group"@,
        EventContent::GroupInvite { .. } => "group_invite"@,
        EventContent::FriendPoke { .. } => "friend_poke"@,
        EventContent::GroupNameUpdate { .. } => "group_name_update"@,
        EventContent::FriendDecrease { .. } => "friend_decrease"@,
    }
}

/// The event's sub type: how a member joined or left, how a message was
/// removed; empty for the rest.
pub open spec fn sub_type(c: EventContent) -> Seq<char> {
    match c {
        EventContent::GroupMemberIncrease { .. } => "join"@,
        EventContent::GroupMemberDecrease { kind, .. } => match kind {
            DecreaseKind::Kick(_) => "kick"@,
            DecreaseKind::Leave(_) => "leave"@,
            DecreaseKind::Disband(_) => "disband"@,
        },
        EventContent::GroupMessageDelete { kind, .. } => match kind {
            DeleteKind::Recall(_) => "recall"@,
            DeleteKind::Delete(_) => "delete"@,
        },
        _ => ""@,
    }
}

/// The sub type of a member-decrease event is `kick` for a member removed by
/// someone else, `leave` for one who left, and `disband` for a disbanded
/// group.
pub proof fn law_decrease_sub_types(c: EventContent)
    ensures
        c matches EventContent::GroupMemberDecrease { kind, .. } && kind is Kick ==> sub_type(c)
            == seq!['k', 'i', 'c', 'k'],
        c matches EventContent::GroupMemberDecrease { kind, .. } && kind is Leave ==> sub_type(c)
            == seq!['l', 'e', 'a', 'v', 'e'],
        c matches EventContent::GroupMemberDecrease { kind, .. } && kind is Disband ==> sub_type(c)
            == seq!['d', 'i', 's', 'b', 'a', 'n', 'd'],
{
    reveal_strlit("kick");
    reveal_strlit("leave");
    reveal_strlit("disband");
}

/// The sub type of a member-increase event is `join`; that of a deleted
/// message `recall` for a recalled one and `delete` otherwise; the other
/// events have none.
pub proof fn law_other_sub_types(c: EventContent)
    ensures
        c is GroupMemberIncrease ==> sub_type(c) == seq!['j', 'o', 'i', 'n'],
        c matches EventContent::GroupMessageDelete { kind, .. } && kind is Recall ==> sub_type(c)
            == seq!['r', 'e', 'c', 'a', 'l', 'l'],
        c matches EventContent::GroupMessageDelete { kind, .. } && kind is Delete ==> sub_type(c)
            == seq!['d', 'e', 'l', 'e', 't', 'e'],
        !(c is GroupMemberIncrease) && !(c is GroupMemberDecrease) && !(c is GroupMessageDelete) ==> sub_type(
            c,
        ).len() == 0,
{
    reveal_strlit("join");
    reveal_strlit("recall");
    reveal_strlit("delete");
    reveal_strlit("");
}

/// Whether this is a message event: those are stored in the database.
pub open spec fn is_message_spec(c: EventContent) -> bool {
    ||| c is PrivateMessage
    ||| c is GroupMessage
    ||| c is GroupTempMessage
}

impl WQEvent {
    /// Whether this is a message event.
    pub fn is_message(&self) -> (b: bool)
        ensures
            b == is_message_spec(self.content),
    {
        match &self.content {
            EventContent::PrivateMessage { .. } => true,
            EventContent::GroupMessage { .. } => true,
            EventContent::GroupTempMessage { .. } => true,
            _ => false,
        }
    }
}

impl WQEvent {
    /// The event type: `meta`, `message`, `notice` or `request`.
    pub fn ty(&self) -> (s: &'static str)
        ensures
            s@ == event_type(self.content),
    {
        match &self.content {
            EventContent::StatusUpdate { .. } => "meta",
            EventContent::PrivateMessage { .. } => "message",
            EventContent::GroupMessage { .. } => "message",
            EventContent::GroupTempMessage { .. } => "message",
            EventContent::NewFriend { .. } => "request",
            EventContent::JoinGroup { .. } => "request",
            EventContent::GroupInvite { .. } => "request",
            _ => "notice",
        }
    }

    /// The event's detail type.
    pub fn detail_type(&self) -> (s: &'static str)
        ensures
            s@ == detail_type(self.content),
    {
        match &self.content {
            EventContent::StatusUpdate { .. } => "status_update",
            EventContent::PrivateMessage { .. } => "private",
            EventContent::GroupMessage { .. } => "group",
            EventContent::GroupTempMessage { .. } => "group_temp",
            EventContent::PrivateMessageDelete { .. } => "private_message_delete",
            EventContent::FriendIncrease { .. } => "friend_increase",
            EventContent::GroupMemberIncrease { .. } => "group_member_increase",
            EventContent::GroupMemberDecrease { .. } => "group_member_decrease",
            EventContent::GroupMemberBan { .. } => "group_member_ban",
            EventContent::GroupMessageDelete { .. } => "group_message_delete",
            EventContent::GroupAdminSet { .. } => "group_admin_set",
            EventContent::GroupAdminUnset { .. } => "group_admin_unset",
            EventContent::NewFriend { .. } => "new_friend",
            EventContent::JoinGroup { .. } => "join_group",
            EventContent::GroupInvite { .. } => "group_invite",
            EventContent::FriendPoke { .. } => "friend_poke",
            EventContent::GroupNameUpdate { .. } => "group_name_update",
            EventContent::FriendDecrease { .. } => "friend_decrease",
        }
    }

    /// The event's sub type.
    pub fn sub_type(&self) -> (s: &'static str)
        ensures
            s@ == sub_type(self.content),
    {
        match &self.content {
            EventContent::GroupMemberIncrease { .. } => "join",
            EventContent::GroupMemberDecrease { kind, .. } => match kind {
                DecreaseKind::Kick(_) => "kick",
                DecreaseKind::Leave(_) => "leave",
                DecreaseKind::Disband(_) => "disband",
            },
            EventContent::GroupMessageDelete { kind, .. } => match kind {
                DeleteKind::Recall(_) => "recall",
                DeleteKind::Delete(_) => "delete",
            },
            _ => "",
        }
    }
}

impl MessageId for WQEvent {
    /// The identifier of a message event; empty for any other event.
    fn message_id(&self) -> (s: String)
        ensures
            s@ == match self.content {
                EventContent::PrivateMessage { message, .. } => message.message_id@,
                EventContent::GroupMessage { message, .. } => message.message_id@,
                EventContent::GroupTempMessage { message, .. } => message.message_id@,
                _ => Seq::<char>::empty(),
            },
    {
        match &self.content {
            EventContent::PrivateMessage { message, .. } => copy_string(&message.message_id),
            EventContent::GroupMessage { message, .. } => copy_string(&message.message_id),
            EventContent::GroupTempMessage { message, .. } => copy_string(&message.message_id),
            _ => String::new(),
        }
    }
}


/// Whether `s` names the bot `self_id` on the platform `qq`.
pub open spec fn selft_is(s: Selft, self_id: i64) -> bool {
    s.user_id@ == int_chars(self_id as int) && s.platform@ == "qq"@
}

/// The bot `self_id` on the platform `qq`.
pub fn new_selft(self_id: i64) -> (s: Selft)
    ensures
        selft_is(s, self_id),
{
    Selft { user_id: i64_to_string(self_id), platform: lit("qq") }
}

/// Whether `alt` is a summary of `segs`: for each segment a text it shows,
/// one after another, and the one summary there is where every text is known.
pub open spec fn alt_fits(segs: Seq<MsgSegment>, alt: Seq<char>) -> bool {
    &&& alt_summary(segments_view(segs), alt)
    &&& (forall|i: int| 0 <= i < segs.len() ==> alt_known(#[trigger] segs[i]@) is Some) ==> alt
        == known_alts(segments_view(segs))
}

/// Whether `m` is the message of the bot `self_id` with identifier `id`,
/// segments `segs` and sender `user`, summarised by `alt_message`.
pub open spec fn message_is(
    m: MessageContent,
    self_id: i64,
    id: Seq<char>,
    segs: Seq<MsgSegmentView>,
    user: i64,
) -> bool {
    &&& selft_is(m.selft, self_id)
    &&& m.message_id@ == id
    &&& segments_view(m.message@) == segs
    &&& alt_fits(m.message@, m.alt_message@)
    &&& m.user_id@ == int_chars(user as int)
}

/// The identifier of a received or sent group message: its first sequence
/// number when messages are kept in a database (which finds them by it), else
/// the full group message identifier.
pub open spec fn group_msg_id(db: bool, code: i64, seqs: Seq<i32>, rands: Seq<i32>) -> Seq<char> {
    if db {
        int_chars(seqs[0] as int)
    } else {
        group_message_id_spec(code, seqs, rands)
    }
}

/// The identifier of a received or sent private message, chosen the same way.
pub open spec fn private_msg_id(db: bool, uin: i64, time: i32, seqs: Seq<i32>, rands: Seq<i32>) -> Seq<char> {
    if db {
        int_chars(seqs[0] as int)
    } else {
        private_message_id_spec(uin, time, seqs, rands)
    }
}

fn message_id_of_group(db: bool, code: i64, seqs: &Vec<i32>, rands: &Vec<i32>) -> (s: String)
    requires
        db ==> seqs@.len() > 0,
    ensures
        s@ == group_msg_id(db, code, seqs@, rands@),
{
    if db {
        i32_to_string(seqs[0])
    } else {
        new_group_message_id(code, copy_i32s(seqs), copy_i32s(rands))
    }
}

fn message_id_of_private(db: bool, uin: i64, time: i32, seqs: &Vec<i32>, rands: &Vec<i32>) -> (s: String)
    requires
        db ==> seqs@.len() > 0,
    ensures
        s@ == private_msg_id(db, uin, time, seqs@, rands@),
{
    if db {
        i32_to_string(seqs[0])
    } else {
        new_private_message_id(uin, time, copy_i32s(seqs), copy_i32s(rands))
    }
}

/// A copy of a list of numbers.
pub fn copy_i32s(v: &Vec<i32>) -> (r: Vec<i32>)
    ensures
        r@ == v@,
{
    let mut r: Vec<i32> = Vec::new();
    let mut i: usize = 0;
    while i < v.len()
        invariant
            i <= v@.len(),
            r@ == v@.take(i as int),
        decreases v.len() - i,
    {
        r.push(v[i]);
        i = i + 1;
        assert(r@ =~= v@.take(i as int));
    }
    assert(v@.take(v@.len() as int) =~= v@);
    r
}

fn new_message(self_id: i64, message_id: String, message: Vec<MsgSegment>, user: i64) -> (m: MessageContent)
    ensures
        message_is(m, self_id, message_id@, segments_view(message@), user),
{
    let alt = alt_message(&message);
    MessageContent {
        selft: new_selft(self_id),
        message_id,
        message,
        alt_message: alt,
        user_id: i64_to_string(user),
    }
}

/// A group message the client received.
#[derive(Debug)]
pub struct GroupMessage {
    pub seqs: Vec<i32>,
    pub rands: Vec<i32>,
    pub group_code: i64,
    pub group_name: String,
    pub group_card: String,
    pub from_uin: i64,
    pub time: i32,
    pub elements: MessageChain,
}

/// A private message the client received.
#[derive(Debug)]
pub struct FriendMessage {
    pub seqs: Vec<i32>,
    pub rands: Vec<i32>,
    pub time: i32,
    pub from_uin: i64,
    pub from_nick: String,
    pub elements: MessageChain,
}

/// A message the client received from a group member who is no friend.
#[derive(Debug)]
pub struct GroupTempMessage {
    pub seqs: Vec<i32>,
    pub rands: Vec<i32>,
    pub from_uin: i64,
    pub from_nick: String,
    pub time: i32,
    pub elements: MessageChain,
    pub group_code: i64,
}

/// A voice message the client received in a group; the voice is known by its
/// MD5 and size.
#[derive(Debug)]
pub struct GroupAudioMessage {
    pub seqs: Vec<i32>,
    pub rands: Vec<i32>,
    pub group_code: i64,
    pub group_name: String,
    pub group_card: String,
    pub from_uin: i64,
    pub time: i32,
    pub audio_md5: Vec<u8>,
    pub audio_size: u32,
}

/// A voice message the client received from a friend.
#[derive(Debug)]
pub struct FriendAudioMessage {
    pub seqs: Vec<i32>,
    pub rands: Vec<i32>,
    pub time: i32,
    pub from_uin: i64,
    pub from_nick: String,
    pub audio_md5: Vec<u8>,
    pub audio_size: u32,
}

/// What the server answers when the bot sends a message.
#[derive(Debug)]
pub struct MessageReceipt {
    pub seqs: Vec<i32>,
    pub rands: Vec<i32>,
    pub time: i64,
}

/// The event of a received group message, with the segments `message`.
pub fn new_group_msg(group_message: GroupMessage, message: Vec<MsgSegment>, self_id: i64, db: bool) -> (e: WQEvent)
    requires
        db ==> group_message.seqs@.len() > 0,
    ensures
        e.time == Some(group_message.time as i64),
        e.content matches EventContent::GroupMessage { message: m, group_id, names }
            && message_is(m, self_id, group_msg_id(db, group_message.group_code, group_message.seqs@, group_message.rands@),
                segments_view(message@), group_message.from_uin)
            && group_id@ == int_chars(group_message.group_code as int)
            && names.group_name@ == group_message.group_name@
            && names.user_name@ == group_message.group_card@,
{
    let id = message_id_of_group(db, group_message.group_code, &group_message.seqs, &group_message.rands);
    let m = new_message(self_id, id, message, group_message.from_uin);
    WQEvent {
        time: Some(group_message.time as i64),
        content: EventContent::GroupMessage {
            message: m,
            group_id: i64_to_string(group_message.group_code),
            names: Names { group_name: group_message.group_name, user_name: group_message.group_card },
        },
    }
}

/// The event of a group message the bot sent; `self_uin` is the bot's number.
pub fn new_group_receipt(self_uin: i64, receipt: MessageReceipt, group_code: i64, message: Vec<MsgSegment>, self_id: i64, db: bool) -> (e: WQEvent)
    requires
        db ==> receipt.seqs@.len() > 0,
    ensures
        e.time == Some(receipt.time),
        e.content matches EventContent::GroupMessage { message: m, group_id, names }
            && message_is(m, self_id, group_msg_id(db, group_code, receipt.seqs@, receipt.rands@),
                segments_view(message@), self_uin)
            && group_id@ == int_chars(group_code as int)
            && names.group_name@ == Seq::<char>::empty()
            && names.user_name@ == Seq::<char>::empty(),
{
    let id = message_id_of_group(db, group_code, &receipt.seqs, &receipt.rands);
    let m = new_message(self_id, id, message, self_uin);
    WQEvent {
        time: Some(receipt.time),
        content: EventContent::GroupMessage {
            message: m,
            group_id: i64_to_string(group_code),
            names: Names { group_name: String::new(), user_name: String::new() },
        },
    }
}

/// The voice segment of a stored voice with this MD5 and size.
pub open spec fn voice_segment(md5: Seq<u8>, size: u32) -> MsgSegmentView {
    seg("voice"@, seq![str_entry("file_id"@, hex_encode_spec(media_id_spec(md5, size)))])
}

/// The single voice segment of a received voice message.
pub fn voice_message(md5: &Vec<u8>, size: u32) -> (v: Vec<MsgSegment>)
    ensures
        segments_view(v@) == seq![voice_segment(md5@, size)],
{
    let mut data: Vec<(String, Value)> = Vec::new();
    data.push((lit("file_id"), Value::Str(hex_media_id(md5.as_slice(), size))));
    let s = MsgSegment { ty: lit("voice"), data };
    assert(s@.data =~= voice_segment(md5@, size).data);
    let mut v: Vec<MsgSegment> = Vec::new();
    v.push(s);
    assert(segments_view(v@) =~= seq![voice_segment(md5@, size)]);
    v
}

/// The event of a voice message received in a group.
pub fn new_group_audio(group_audio: GroupAudioMessage, message: Vec<MsgSegment>, self_id: i64, db: bool) -> (e: WQEvent)
    requires
        db ==> group_audio.seqs@.len() > 0,
    ensures
        e.time == Some(group_audio.time as i64),
        e.content matches EventContent::GroupMessage { message: m, group_id, names }
            && message_is(m, self_id, group_msg_id(db, group_audio.group_code, group_audio.seqs@, group_audio.rands@),
                segments_view(message@), group_audio.from_uin)
            && group_id@ == int_chars(group_audio.group_code as int)
            && names.group_name@ == group_audio.group_name@
            && names.user_name@ == group_audio.group_card@,
{
    let id = message_id_of_group(db, group_audio.group_code, &group_audio.seqs, &group_audio.rands);
    let m = new_message(self_id, id, message, group_audio.from_uin);
    WQEvent {
        time: Some(group_audio.time as i64),
        content: EventContent::GroupMessage {
            message: m,
            group_id: i64_to_string(group_audio.group_code),
            names: Names { group_name: group_audio.group_name, user_name: group_audio.group_card },
        },
    }
}

/// The event of a private message received.
pub fn new_private_msg(friend_message: FriendMessage, message: Vec<MsgSegment>, self_id: i64, db: bool) -> (e: WQEvent)
    requires
        db ==> friend_message.seqs@.len() > 0,
    ensures
        e.time == Some(friend_message.time as i64),
        e.content matches EventContent::PrivateMessage { message: m, user }
            && message_is(m, self_id, private_msg_id(db, friend_message.from_uin, friend_message.time,
                friend_message.seqs@, friend_message.rands@), segments_view(message@), friend_message.from_uin)
            && user.user_name@ == friend_message.from_nick@,
{
    let id = message_id_of_private(db, friend_message.from_uin, friend_message.time, &friend_message.seqs, &friend_message.rands);
    let m = new_message(self_id, id, message, friend_message.from_uin);
    WQEvent {
        time: Some(friend_message.time as i64),
        content: EventContent::PrivateMessage { message: m, user: UserName { user_name: friend_message.from_nick } },
    }
}

/// The event of a private message the bot sent to `target_id`; the bot is
/// `self_uin`, named `self_nick`.  The identifier carries the receipt's time
/// cut to its low 32 bits.
pub fn new_private_receipt(self_uin: i64, self_nick: String, receipt: MessageReceipt, target_id: i64, message: Vec<MsgSegment>, self_id: i64, db: bool) -> (e: WQEvent)
    requires
        db ==> receipt.seqs@.len() > 0,
    ensures
        e.time == Some(receipt.time),
        e.content matches EventContent::PrivateMessage { message: m, user }
            && message_is(m, self_id, private_msg_id(db, target_id, receipt.time as i32, receipt.seqs@, receipt.rands@),
                segments_view(message@), self_uin)
            && user.user_name@ == self_nick@,
{
    let id = message_id_of_private(db, target_id, receipt.time as i32, &receipt.seqs, &receipt.rands);
    let m = new_message(self_id, id, message, self_uin);
    WQEvent {
        time: Some(receipt.time),
        content: EventContent::PrivateMessage { message: m, user: UserName { user_name: self_nick } },
    }
}

/// The event of a voice message received from a friend.
pub fn new_private_audio(friend_audio: FriendAudioMessage, message: Vec<MsgSegment>, self_id: i64, db: bool) -> (e: WQEvent)
    requires
        db ==> friend_audio.seqs@.len() > 0,
    ensures
        e.time == Some(friend_audio.time as i64),
        e.content matches EventContent::PrivateMessage { message: m, user }
            && message_is(m, self_id, private_msg_id(db, friend_audio.from_uin, friend_audio.time,
                friend_audio.seqs@, friend_audio.rands@), segments_view(message@), friend_audio.from_uin)
            && user.user_name@ == friend_audio.from_nick@,
{
    let id = message_id_of_private(db, friend_audio.from_uin, friend_audio.time, &friend_audio.seqs, &friend_audio.rands);
    let m = new_message(self_id, id, message, friend_audio.from_uin);
    WQEvent {
        time: Some(friend_audio.time as i64),
        content: EventContent::PrivateMessage { message: m, user: UserName { user_name: friend_audio.from_nick } },
    }
}

/// The event of a message received from a group member who is no friend.
pub fn new_group_temp_msg(group_temp: GroupTempMessage, message: Vec<MsgSegment>, self_id: i64, db: bool) -> (e: WQEvent)
    requires
        db ==> group_temp.seqs@.len() > 0,
    ensures
        e.time == Some(group_temp.time as i64),
        e.content matches EventContent::GroupTempMessage { message: m, temp, user }
            && message_is(m, self_id, private_msg_id(db, group_temp.from_uin, group_temp.time,
                group_temp.seqs@, group_temp.rands@), segments_view(message@), group_temp.from_uin)
            && temp.group_id@ == int_chars(group_temp.group_code as int)
            && user.user_name@ == group_temp.from_nick@,
{
    let id = message_id_of_private(db, group_temp.from_uin, group_temp.time, &group_temp.seqs, &group_temp.rands);
    let m = new_message(self_id, id, message, group_temp.from_uin);
    WQEvent {
        time: Some(group_temp.time as i64),
        content: EventContent::GroupTempMessage {
            message: m,
            temp: GroupTemp { group_id: i64_to_string(group_temp.group_code) },
            user: UserName { user_name: group_temp.from_nick },
        },
    }
}

/// The event of a message the bot sent to group member `target_id` of group
/// `group_code`.
pub fn new_group_temp_receipt(receipt: MessageReceipt, message: Vec<MsgSegment>, self_uin: i64, self_nick: String, group_code: i64, target_id: i64, self_id: i64, db: bool) -> (e: WQEvent)
    requires
        db ==> receipt.seqs@.len() > 0,
    ensures
        e.time == Some(receipt.time),
        e.content matches EventContent::GroupTempMessage { message: m, temp, user }
            && message_is(m, self_id, private_msg_id(db, target_id, receipt.time as i32, receipt.seqs@, receipt.rands@),
                segments_view(message@), self_uin)
            && temp.group_id@ == int_chars(group_code as int)
            && user.user_name@ == self_nick@,
{
    let id = message_id_of_private(db, target_id, receipt.time as i32, &receipt.seqs, &receipt.rands);
    let m = new_message(self_id, id, message, self_uin);
    WQEvent {
        time: Some(receipt.time),
        content: EventContent::GroupTempMessage {
            message: m,
            temp: GroupTemp { group_id: i64_to_string(group_code) },
            user: UserName { user_name: self_nick },
        },
    }
}

} // verus!
