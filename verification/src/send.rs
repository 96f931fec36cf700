//! Building an outgoing QQ message from OneBot segments.
//!
//! Each segment either goes straight into the message, or first needs work
//! outside the library: a member's nickname, a stored message or file, an
//! upload.  [`MsgChainBuilder::push_seg`] says which; the program does that
//! work and hands the outcome to the matching `push_` method.  When every
//! segment is in, [`MsgChainBuilder::build`] says what is sent: the message,
//! the forwarded nodes, or the voice.
use vstd::prelude::*;
use crate::decimal::{int_chars, i64_to_string, parse_i64_spec, parse_i64_str, lemma_parse_i64_roundtrip};
use crate::hexcode::{hex_decode, hex_decode_spec};
use crate::model::{Face, Image, Xml};
use crate::resp::{
    RespError, bad_param, bad_segment_data, empty_message, file_not_found,
    is_error, message_not_exist, rq_error, unsupported_action, unsupported_param, unsupported_segment,
};
use crate::segment::{lit, elems_segments, seg, str_entry, MsgSegmentView, RQElem};
use crate::strutil::{push_chars, str_eq, str_to_chars};

verus! {

/// A forwarded node: who sent it, when (in seconds), and its segments.
#[derive(Debug)]
pub struct Node {
    pub user_id: String,
    pub time: i32,
    pub user_name: String,
    pub message: Vec<WQSegment>,
}

/// A OneBot segment that can be sent.
#[derive(Debug)]
pub enum WQSegment {
    Text { text: String },
    MentionAll,
    Mention { user_id: String },
    Reply { message_id: String },
    Face(Face),
    /// An image, with the bytes of its content when the request carried them.
    Image { image: Image, bytes: Option<Vec<u8>> },
    Xml(Xml),
    Voice { file_id: String },
    Node(Node),
}

/// Why a segment could not be read: its type names another segment, or a
/// key is missing from its data.
#[derive(Debug)]
pub enum SegmentError {
    DeclareNotMatch(String),
    MapMissedKey(String),
}

/// The answer to a segment that could not be read: an unsupported action for
/// a type mismatch, bad segment data for a missing key.
pub fn segment_error(e: &SegmentError) -> (r: RespError)
    ensures
        match e {
            SegmentError::DeclareNotMatch(ty) => is_error(r, 10002, "不支持的动作"@, ty@),
            SegmentError::MapMissedKey(key) => is_error(r, 10006, "无效的消息段参数"@, key@),
        },
{
    match e {
        SegmentError::DeclareNotMatch(ty) => unsupported_action(ty.as_str()),
        SegmentError::MapMissedKey(key) => bad_segment_data(key.as_str()),
    }
}

/// An element of an outgoing QQ message.  Uploaded images are known by the
/// number the program gave them.
#[derive(Debug)]
pub enum ChainElem {
    Text(String),
    At { target: i64, display: String },
    Face(i32),
    RichMsg { service_id: i32, template1: String },
    Image { upload: u64, flash: bool },
    Reply { reply_seq: i32, sender: i64, time: i32, text: String },
}

/// A forwarded message: a single message, or a bundle of forwarded messages.
#[derive(Debug)]
pub enum ForwardMessage {
    Message { sender_id: i64, sender_name: String, time: i32, elements: Vec<ChainElem> },
    Forward { sender_id: i64, sender_name: String, time: i32, nodes: Vec<ForwardMessage> },
}

/// What has been built so far: the message, the forwarded nodes, and the
/// voice (an uploaded voice, known by its number).
#[derive(Debug)]
pub struct RQSends {
    pub chain: Vec<ChainElem>,
    pub forward: Vec<ForwardMessage>,
    pub voice: Option<u64>,
}

/// What is sent in the end.
#[derive(Debug)]
pub enum RQSendItem {
    Chain(Vec<ChainElem>),
    Forward(Vec<ForwardMessage>),
    Voice(u64),
}

impl RQSendItem {
    /// The message if it has any element, else the forwarded nodes if there
    /// are any, else the voice; with none of them, the message is empty.
    pub fn try_from(s: RQSends) -> (r: Result<RQSendItem, RespError>)
        ensures
            s.chain@.len() > 0 ==> r == Ok::<RQSendItem, RespError>(RQSendItem::Chain(s.chain)),
            s.chain@.len() == 0 && s.forward@.len() > 0 ==> r == Ok::<RQSendItem, RespError>(
                RQSendItem::Forward(s.forward),
            ),
            s.chain@.len() == 0 && s.forward@.len() == 0 ==> match s.voice {
                Some(v) => r == Ok::<RQSendItem, RespError>(RQSendItem::Voice(v)),
                None => r matches Err(e) && is_error(e, 10003, "消息为空"@, ""@),
            },
    {
        if s.chain.len() > 0 {
            Ok(RQSendItem::Chain(s.chain))
        } else if s.forward.len() > 0 {
            Ok(RQSendItem::Forward(s.forward))
        } else {
            match s.voice {
                Some(v) => Ok(RQSendItem::Voice(v)),
                None => Err(empty_message("")),
            }
        }
    }
}

/// How many QQ elements an element becomes: a flash image comes with a line
/// of text for old clients.
pub open spec fn elem_width(e: ChainElem) -> nat {
    match e {
        ChainElem::Image { flash, .. } => if flash { 2 } else { 1 },
        _ => 1,
    }
}

/// How many QQ elements a message has.
pub open spec fn chain_width(c: Seq<ChainElem>) -> nat
    decreases c.len(),
{
    if c.len() == 0 {
        0
    } else {
        chain_width(c.drop_last()) + elem_width(c.last())
    }
}

proof fn lemma_chain_width_at_least_len(c: Seq<ChainElem>)
    ensures
        chain_width(c) >= c.len(),
        chain_width(c) == 1 <==> (c.len() == 1 && elem_width(c[0]) == 1),
    decreases c.len(),
{
    if c.len() > 0 {
        lemma_chain_width_at_least_len(c.drop_last());
        if c.len() == 1 {
            assert(c.drop_last().len() == 0);
        }
    }
}

/// What the program must do for a segment before it goes into the message.
#[derive(Debug)]
pub enum SegStep {
    /// The segment is in.
    Pushed,
    /// The segment cannot be sent; the whole message fails with this error.
    Failed(RespError),
    /// Look up the nickname of `user_id` in the target group, then call
    /// [`MsgChainBuilder::push_mention`].
    MemberName { user_id: i64 },
    /// Find the stored message `message_id`, then call
    /// [`MsgChainBuilder::push_reply`].
    StoredMessage { message_id: String },
    /// Find the QQ face called `name`, then call
    /// [`MsgChainBuilder::push_named_face`].
    FaceName { name: String },
    /// Find the stored image under `key`; failing that, fetch `url`; failing
    /// that, take `bytes` (see [`image_source`]); upload what was found, then
    /// call [`MsgChainBuilder::push_image`].
    Image { key: Vec<u8>, file_id: String, url: Option<String>, bytes: Option<Vec<u8>>, flash: bool },
    /// Find the stored voice under `key` (see [`voice_source`]), upload it
    /// where needed, then call [`MsgChainBuilder::push_voice`].
    Voice { key: Vec<u8>, file_id: String },
    /// Build `message` with [`MsgChainBuilder::sub_builder`], then call
    /// [`MsgChainBuilder::push_node`].
    Node { sender_id: i64, sender_name: String, time: i32, message: Vec<WQSegment> },
}

/// A message found in the database: its sequence numbers, its sender, its
/// time in seconds and its summary text.
#[derive(Debug)]
pub struct StoredMessage {
    pub seqs: Vec<i32>,
    pub user_id: String,
    pub time: i32,
    pub alt_message: String,
}

/// Where the content of an image segment comes from.
#[derive(Debug)]
pub enum ImageSource {
    /// The stored image.
    Stored,
    /// The content at this URL.
    Url(String),
    /// The bytes the request carried.
    Bytes(Vec<u8>),
    /// Nowhere: the segment fails with this error.
    Missing(RespError),
}

/// Where an image's content comes from, given whether the database holds it:
/// the stored image first, then the URL, then the carried bytes.
pub fn image_source(stored: bool, file_id: &str, url: Option<String>, bytes: Option<Vec<u8>>) -> (r: ImageSource)
    ensures
        stored ==> r is Stored,
        !stored && url is Some ==> r == ImageSource::Url(url->0),
        !stored && url is None && bytes is Some ==> r == ImageSource::Bytes(bytes->0),
        !stored && url is None && bytes is None ==> (r matches ImageSource::Missing(e) && is_error(
            e,
            32005,
            "文件不存在"@,
            file_id@,
        )),
{
    if stored {
        ImageSource::Stored
    } else {
        match url {
            Some(u) => ImageSource::Url(u),
            None => match bytes {
                Some(b) => ImageSource::Bytes(b),
                None => ImageSource::Missing(file_not_found(file_id)),
            },
        }
    }
}

/// The error when the content at an image's URL could not be fetched.
pub fn url_fetch_error(reason: &str) -> (e: RespError)
    ensures
        is_error(e, 10003, "无效的动作请求参数"@, "url:"@ + reason@),
{
    let mut detail = lit("url:");
    let r = str_to_chars(reason);
    push_chars(&mut detail, &r);
    proof {
        assert(detail@ =~= "url:"@ + reason@);
    }
    bad_param(detail.as_str())
}

/// What the database holds under a voice's key.
#[derive(Debug, Clone, Copy, PartialEq, Eq)]
pub enum StoredVoice {
    /// A voice received from QQ, which can be sent again as it is.
    Ptt,
    /// A voice file of the bot's own, to be encoded and uploaded.
    Local,
}

/// What to do with a voice segment, given what the database holds: nothing
/// found fails with `file_not_found`.
pub fn voice_source(found: Option<StoredVoice>, file_id: &str) -> (r: Result<StoredVoice, RespError>)
    ensures
        match found {
            Some(v) => r == Ok::<StoredVoice, RespError>(v),
            None => r matches Err(e) && is_error(e, 32005, "文件不存在"@, file_id@),
        },
{
    match found {
        Some(v) => Ok(v),
        None => Err(file_not_found(file_id)),
    }
}

/// The text shown for a mention: `@`, then the member's nickname when it is
/// known, else the number.
pub open spec fn mention_display(user_id: i64, nickname: Option<Seq<char>>) -> Seq<char> {
    seq!['@'] + match nickname {
        Some(n) => n,
        None => int_chars(user_id as int),
    }
}

/// Builds one outgoing message for a group or a friend.
#[derive(Debug)]
pub struct MsgChainBuilder {
    pub target: i64,
    pub group: bool,
    pub results: RQSends,
    pub reply: bool,
}

/// Whether `b` is a fresh builder for `target`.
pub open spec fn is_fresh(b: MsgChainBuilder, target: i64, group: bool) -> bool {
    &&& b.target == target
    &&& b.group == group
    &&& b.results.chain@.len() == 0
    &&& b.results.forward@.len() == 0
    &&& b.results.voice is None
    &&& !b.reply
}

/// `b` after `e` is appended to its message.
pub open spec fn pushed(old_b: MsgChainBuilder, b: MsgChainBuilder, e: ChainElem) -> bool {
    &&& b.target == old_b.target
    &&& b.group == old_b.group
    &&& b.reply == old_b.reply
    &&& b.results.chain@ == old_b.results.chain@.push(e)
    &&& b.results.forward@ == old_b.results.forward@
    &&& b.results.voice == old_b.results.voice
}

/// `b` as it was.
pub open spec fn unchanged(old_b: MsgChainBuilder, b: MsgChainBuilder) -> bool {
    &&& b.target == old_b.target
    &&& b.group == old_b.group
    &&& b.reply == old_b.reply
    &&& b.results.chain@ == old_b.results.chain@
    &&& b.results.forward@ == old_b.results.forward@
    &&& b.results.voice == old_b.results.voice
}

impl MsgChainBuilder {
    /// A builder for a message to group `target`.
    pub fn group_chain_builder(target: i64) -> (b: MsgChainBuilder)
        ensures
            is_fresh(b, target, true),
    {
        MsgChainBuilder {
            target,
            group: true,
            results: RQSends { chain: Vec::new(), forward: Vec::new(), voice: None },
            reply: false,
        }
    }

    /// A builder for a message to friend `target`.
    pub fn private_chain_builder(target: i64) -> (b: MsgChainBuilder)
        ensures
            is_fresh(b, target, false),
    {
        MsgChainBuilder {
            target,
            group: false,
            results: RQSends { chain: Vec::new(), forward: Vec::new(), voice: None },
            reply: false,
        }
    }

    /// A fresh builder with the same target, for the message of a node.
    pub fn sub_builder(&self) -> (b: MsgChainBuilder)
        ensures
            is_fresh(b, self.target, self.group),
    {
        MsgChainBuilder {
            target: self.target,
            group: self.group,
            results: RQSends { chain: Vec::new(), forward: Vec::new(), voice: None },
            reply: false,
        }
    }

    /// Takes in one segment, or says what must be done first.  Text, a
    /// mention of everyone, a face by number and an XML card go straight in;
    /// a mention in a private message shows the number.  A mention whose
    /// `user_id` is no number fails, as does a face with neither number nor
    /// name, an image or voice whose `file_id` is no hexadecimal text, and a
    /// node whose `user_id` is no number.
    pub fn push_seg(&mut self, seg: WQSegment) -> (step: SegStep)
        ensures
            match seg {
                WQSegment::Text { text } => step is Pushed && pushed(*old(self), *final(self), ChainElem::Text(text)),
                WQSegment::MentionAll => {
                    &&& step is Pushed
                    &&& final(self).results.chain@.len() == old(self).results.chain@.len() + 1
                    &&& pushed(*old(self), *final(self), final(self).results.chain@.last())
                    &&& final(self).results.chain@.last() matches ChainElem::At { target, display }
                    &&& target == 0 && display@ == "all"@
                },
                WQSegment::Mention { user_id } => match parse_i64_spec(user_id@) {
                    None => step matches SegStep::Failed(e) && is_error(e, 10003, "无效的动作请求参数"@, "user_id should be int"@)
                        && unchanged(*old(self), *final(self)),
                    Some(id) => if old(self).group {
                        step == (SegStep::MemberName { user_id: id }) && unchanged(*old(self), *final(self))
                    } else {
                        &&& step is Pushed
                        &&& final(self).results.chain@.len() == old(self).results.chain@.len() + 1
                        &&& pushed(*old(self), *final(self), final(self).results.chain@.last())
                        &&& final(self).results.chain@.last() matches ChainElem::At { target, display }
                        &&& target == id && display@ == mention_display(id, None)
                    },
                },
                WQSegment::Reply { message_id } => step == (SegStep::StoredMessage { message_id })
                    && unchanged(*old(self), *final(self)),
                WQSegment::Face(face) => match face.id {
                    Some(id) => step is Pushed && pushed(*old(self), *final(self), ChainElem::Face(id)),
                    None => match face.file {
                        Some(name) => step == (SegStep::FaceName { name }) && unchanged(*old(self), *final(self)),
                        None => step matches SegStep::Failed(e) && is_error(e, 10003, "无效的动作请求参数"@, "face"@)
                            && unchanged(*old(self), *final(self)),
                    },
                },
                WQSegment::Xml(xml) => step is Pushed && pushed(
                    *old(self),
                    *final(self),
                    ChainElem::RichMsg { service_id: xml.service_id, template1: xml.data },
                ),
                WQSegment::Image { image, bytes } => unchanged(*old(self), *final(self)) && match hex_decode_spec(image.file_id@) {
                    None => step matches SegStep::Failed(e) && is_error(e, 10003, "无效的动作请求参数"@, "file_id"@),
                    Some(key) => step matches SegStep::Image { key: k, file_id, url, bytes: b, flash }
                        && k@ == key && file_id == image.file_id && url == image.url && b == bytes
                        && flash == (image.flash == Some(true)),
                },
                WQSegment::Voice { file_id } => unchanged(*old(self), *final(self)) && match hex_decode_spec(file_id@) {
                    None => step matches SegStep::Failed(e) && is_error(e, 10003, "无效的动作请求参数"@, "file_id"@),
                    Some(key) => step matches SegStep::Voice { key: k, file_id: f } && k@ == key && f == file_id,
                },
                WQSegment::Node(node) => unchanged(*old(self), *final(self)) && match parse_i64_spec(node.user_id@) {
                    None => step matches SegStep::Failed(e) && is_error(e, 10006, "无效的消息段参数"@, "user_id"@),
                    Some(id) => step == (SegStep::Node {
                        sender_id: id,
                        sender_name: node.user_name,
                        time: node.time,
                        message: node.message,
                    }),
                },
            },
    {
        match seg {
            WQSegment::Text { text } => {
                self.results.chain.push(ChainElem::Text(text));
                SegStep::Pushed
            },
            WQSegment::MentionAll => {
                self.results.chain.push(ChainElem::At { target: 0, display: lit("all") });
                SegStep::Pushed
            },
            WQSegment::Mention { user_id } => match parse_i64_str(user_id.as_str()) {
                None => SegStep::Failed(bad_param("user_id should be int")),
                Some(id) => {
                    if self.group {
                        SegStep::MemberName { user_id: id }
                    } else {
                        self.results.chain.push(ChainElem::At { target: id, display: mention_text(id, None) });
                        SegStep::Pushed
                    }
                },
            },
            WQSegment::Reply { message_id } => SegStep::StoredMessage { message_id },
            WQSegment::Face(face) => match face.id {
                Some(id) => {
                    self.results.chain.push(ChainElem::Face(id));
                    SegStep::Pushed
                },
                None => match face.file {
                    Some(name) => SegStep::FaceName { name },
                    None => SegStep::Failed(bad_param("face")),
                },
            },
            WQSegment::Xml(xml) => {
                self.results.chain.push(ChainElem::RichMsg { service_id: xml.service_id, template1: xml.data });
                SegStep::Pushed
            },
            WQSegment::Image { image, bytes } => match hex_decode(image.file_id.as_str()) {
                None => SegStep::Failed(bad_param("file_id")),
                Some(key) => {
                    let flash = match image.flash {
                        Some(f) => f,
                        None => false,
                    };
                    SegStep::Image { key, file_id: image.file_id, url: image.url, bytes, flash }
                },
            },
            WQSegment::Voice { file_id } => match hex_decode(file_id.as_str()) {
                None => SegStep::Failed(bad_param("file_id")),
                Some(key) => SegStep::Voice { key, file_id },
            },
            WQSegment::Node(node) => match parse_i64_str(node.user_id.as_str()) {
                None => SegStep::Failed(bad_segment_data("user_id")),
                Some(id) => SegStep::Node {
                    sender_id: id,
                    sender_name: node.user_name,
                    time: node.time,
                    message: node.message,
                },
            },
        }
    }

    /// Puts in the mention of group member `user_id`, shown by the nickname
    /// the group gave, or by the number when the lookup failed.
    pub fn push_mention(&mut self, user_id: i64, nickname: Option<String>)
        ensures
            final(self).results.chain@.len() == old(self).results.chain@.len() + 1,
            final(self).results.chain@.last() matches ChainElem::At { target, display } && target == user_id
                && display@ == mention_display(
                user_id,
                match nickname {
                    Some(n) => Some(n@),
                    None => None,
                },
            ),
            pushed(*old(self), *final(self), final(self).results.chain@.last()),
    {
        let display = mention_text(user_id, nickname);
        self.results.chain.push(ChainElem::At { target: user_id, display });
    }

    /// Puts in the face the name lookup found, or fails when it found none.
    pub fn push_named_face(&mut self, index: Option<i32>) -> (r: Result<(), RespError>)
        ensures
            match index {
                Some(i) => r is Ok && pushed(*old(self), *final(self), ChainElem::Face(i)),
                None => r matches Err(e) && is_error(e, 10003, "无效的动作请求参数"@, "face"@)
                    && unchanged(*old(self), *final(self)),
            },
    {
        match index {
            Some(i) => {
                self.results.chain.push(ChainElem::Face(i));
                Ok(())
            },
            None => Err(bad_param("face")),
        }
    }

    /// Quotes the stored message `message_id`: it goes first in the message,
    /// carrying the stored message's first sequence number, sender, time and
    /// summary.  A message not found fails.
    pub fn push_reply(&mut self, message_id: &str, stored: Option<StoredMessage>) -> (r: Result<(), RespError>)
        requires
            stored matches Some(m) ==> m.seqs@.len() > 0 && parse_i64_spec(m.user_id@) is Some,
        ensures
            match stored {
                None => r matches Err(e) && is_error(e, 35001, "消息不存在"@, message_id@)
                    && unchanged(*old(self), *final(self)),
                Some(m) => {
                    &&& r is Ok
                    &&& final(self).reply
                    &&& final(self).target == old(self).target
                    &&& final(self).group == old(self).group
                    &&& final(self).results.forward@ == old(self).results.forward@
                    &&& final(self).results.voice == old(self).results.voice
                    &&& final(self).results.chain@.len() == old(self).results.chain@.len() + 1
                    &&& final(self).results.chain@.skip(1) == old(self).results.chain@
                    &&& final(self).results.chain@[0] matches ChainElem::Reply { reply_seq, sender, time, text }
                        && reply_seq == m.seqs@[0] && Some(sender) == parse_i64_spec(m.user_id@)
                        && time == m.time && text == m.alt_message
                },
            },
    {
        match stored {
            None => Err(message_not_exist(message_id)),
            Some(m) => {
                let sender = match parse_i64_str(m.user_id.as_str()) {
                    Some(s) => s,
                    None => 0,
                };
                let reply_seq = m.seqs[0];
                self.results.chain.insert(
                    0,
                    ChainElem::Reply { reply_seq, sender, time: m.time, text: m.alt_message },
                );
                self.reply = true;
                proof {
                    assert(final(self).results.chain@.skip(1) =~= old(self).results.chain@);
                }
                Ok(())
            },
        }
    }

    /// Puts in an image the program uploaded, or fails when the upload of a
    /// stored image failed.
    pub fn push_image(&mut self, upload: Option<u64>, flash: bool) -> (r: Result<(), RespError>)
        ensures
            match upload {
                Some(u) => r is Ok && pushed(*old(self), *final(self), ChainElem::Image { upload: u, flash }),
                None => {
                    &&& unchanged(*old(self), *final(self))
                    &&& r matches Err(e)
                    &&& if old(self).group {
                        is_error(e, 34001, "机器人平台错误"@, "upload group image failed"@)
                    } else {
                        is_error(e, 34001, "机器人平台错误"@, "upload friend image failed"@)
                    }
                },
            },
    {
        match upload {
            Some(u) => {
                self.results.chain.push(ChainElem::Image { upload: u, flash });
                Ok(())
            },
            None => if self.group {
                Err(rq_error("upload group image failed"))
            } else {
                Err(rq_error("upload friend image failed"))
            },
        }
    }

    /// Puts in an image whose content the program uploaded, or fails with the
    /// upload's error.
    pub fn push_image_data(&mut self, upload: Result<u64, String>, flash: bool) -> (r: Result<(), RespError>)
        ensures
            match upload {
                Ok(u) => r is Ok && pushed(*old(self), *final(self), ChainElem::Image { upload: u, flash }),
                Err(m) => unchanged(*old(self), *final(self)) && (r matches Err(e) && is_error(
                    e,
                    34001,
                    "机器人平台错误"@,
                    m@,
                )),
            },
    {
        match upload {
            Ok(u) => {
                self.results.chain.push(ChainElem::Image { upload: u, flash });
                Ok(())
            },
            Err(m) => Err(rq_error(m.as_str())),
        }
    }

    /// Sets the voice to send, replacing any set before.
    pub fn push_voice(&mut self, upload: u64)
        ensures
            final(self).results.voice == Some(upload),
            final(self).results.chain@ == old(self).results.chain@,
            final(self).results.forward@ == old(self).results.forward@,
            final(self).target == old(self).target,
            final(self).group == old(self).group,
            final(self).reply == old(self).reply,
    {
        self.results.voice = Some(upload);
    }

    /// Adds the node built from a sub-builder's result: a message becomes a
    /// forwarded message, forwarded nodes a forwarded bundle, and a voice the
    /// text `[语音]`.
    pub fn push_node(&mut self, sender_id: i64, sender_name: String, time: i32, built: RQSendItem)
        ensures
            final(self).results.chain@ == old(self).results.chain@,
            final(self).results.voice == old(self).results.voice,
            final(self).target == old(self).target,
            final(self).group == old(self).group,
            final(self).reply == old(self).reply,
            final(self).results.forward@.len() == old(self).results.forward@.len() + 1,
            final(self).results.forward@.drop_last() == old(self).results.forward@,
            match built {
                RQSendItem::Chain(elements) => final(self).results.forward@.last() == (ForwardMessage::Message {
                    sender_id,
                    sender_name,
                    time,
                    elements,
                }),
                RQSendItem::Forward(nodes) => final(self).results.forward@.last() == (ForwardMessage::Forward {
                    sender_id,
                    sender_name,
                    time,
                    nodes,
                }),
                RQSendItem::Voice(_) => {
                    &&& final(self).results.forward@.last() matches ForwardMessage::Message {
                        sender_id: s,
                        sender_name: n,
                        time: t,
                        elements,
                    }
                    &&& s == sender_id && n == sender_name && t == time && elements@.len() == 1
                    &&& elements@[0] matches ChainElem::Text(x)
                    &&& x@ == "[语音]"@
                },
            },
    {
        let node = match built {
            RQSendItem::Chain(elements) => ForwardMessage::Message { sender_id, sender_name, time, elements },
            RQSendItem::Forward(nodes) => ForwardMessage::Forward { sender_id, sender_name, time, nodes },
            RQSendItem::Voice(_) => {
                let mut elements: Vec<ChainElem> = Vec::new();
                elements.push(ChainElem::Text(lit("[语音]")));
                ForwardMessage::Message { sender_id, sender_name, time, elements }
            },
        };
        self.results.forward.push(node);
        proof {
            assert(final(self).results.forward@.drop_last() =~= old(self).results.forward@);
        }
    }

    /// What is sent once every segment is in.  A message that quotes another
    /// and has nothing else gets a space, so that it is not empty.
    pub fn build(self) -> (r: Result<RQSendItem, RespError>)
        ensures
            self.reply && chain_width(self.results.chain@) == 1 ==> {
                &&& r matches Ok(RQSendItem::Chain(c))
                &&& c@.len() == 2 && c@[0] == self.results.chain@[0]
                &&& c@[1] matches ChainElem::Text(t)
                &&& t@ == " "@
            },
            !(self.reply && chain_width(self.results.chain@) == 1) ==> {
                &&& self.results.chain@.len() > 0 ==> r == Ok::<RQSendItem, RespError>(
                    RQSendItem::Chain(self.results.chain),
                )
                &&& self.results.chain@.len() == 0 && self.results.forward@.len() > 0 ==> r == Ok::<
                    RQSendItem,
                    RespError,
                >(RQSendItem::Forward(self.results.forward))
                &&& self.results.chain@.len() == 0 && self.results.forward@.len() == 0 ==> match self.results.voice {
                    Some(v) => r == Ok::<RQSendItem, RespError>(RQSendItem::Voice(v)),
                    None => r matches Err(e) && is_error(e, 10003, "消息为空"@, ""@),
                }
            },
    {
        let MsgChainBuilder { target, group, results, reply } = self;
        let RQSends { chain, forward, voice } = results;
        let mut chain = chain;
        proof {
            lemma_chain_width_at_least_len(chain@);
        }
        if reply && chain.len() == 1 && !is_flash(&chain[0]) {
            chain.push(ChainElem::Text(lit(" ")));
        }
        RQSendItem::try_from(RQSends { chain, forward, voice })
    }
}

fn is_flash(e: &ChainElem) -> (b: bool)
    ensures
        b == (elem_width(*e) == 2),
{
    match e {
        ChainElem::Image { flash, .. } => *flash,
        _ => false,
    }
}

fn mention_text(user_id: i64, nickname: Option<String>) -> (s: String)
    ensures
        s@ == mention_display(
            user_id,
            match nickname {
                Some(n) => Some(n@),
                None => None,
            },
        ),
{
    let mut s = lit("@");
    match nickname {
        Some(n) => {
            let cs = str_to_chars(n.as_str());
            push_chars(&mut s, &cs);
        },
        None => {
            let t = i64_to_string(user_id);
            let cs = str_to_chars(t.as_str());
            push_chars(&mut s, &cs);
        },
    }
    proof {
        reveal_strlit("@");
    }
    s
}

/// Where a message is sent.
#[derive(Debug, Clone, Copy, PartialEq, Eq)]
pub enum SendTarget {
    Group { group_code: i64 },
    GroupTemp { group_code: i64, user: i64 },
    Private { user: i64 },
}

/// The number in an optional request field, or `bad_param` naming the field
/// when it is missing or no number.
fn required_id(v: &Option<String>, name: &str) -> (r: Result<i64, RespError>)
    ensures
        match v {
            Some(s) => match parse_i64_spec(s@) {
                Some(n) => r == Ok::<i64, RespError>(n),
                None => r matches Err(e) && is_error(e, 10003, "无效的动作请求参数"@, name@),
            },
            None => r matches Err(e) && is_error(e, 10003, "无效的动作请求参数"@, name@),
        },
{
    match v {
        Some(s) => match parse_i64_str(s.as_str()) {
            Some(n) => Ok(n),
            None => Err(bad_param(name)),
        },
        None => Err(bad_param(name)),
    }
}

/// The target of a `send_message` request.
pub open spec fn send_target_spec(detail_type: Seq<char>, group_id: Option<Seq<char>>, user_id: Option<Seq<char>>) -> Result<
    SendTarget,
    Seq<char>,
> {
    let g = match group_id {
        Some(s) => parse_i64_spec(s),
        None => None,
    };
    let u = match user_id {
        Some(s) => parse_i64_spec(s),
        None => None,
    };
    if detail_type == "group"@ {
        match g {
            Some(c) => Ok(SendTarget::Group { group_code: c }),
            None => Err("group_id"@),
        }
    } else if detail_type == "group_temp"@ {
        match (g, u) {
            (Some(c), Some(t)) => Ok(SendTarget::GroupTemp { group_code: c, user: t }),
            (None, _) => Err("group_id"@),
            (_, None) => Err("user_id"@),
        }
    } else if detail_type == "private"@ {
        match u {
            Some(t) => Ok(SendTarget::Private { user: t }),
            None => Err("user_id"@),
        }
    } else {
        Err(detail_type)
    }
}

/// Where `send_message` sends: to a group, to a group member through the
/// group, or to a friend, by `detail_type`.  A missing or malformed
/// `group_id` or `user_id` is a bad parameter naming it; another detail type
/// is an unsupported parameter naming it.
pub fn send_target(detail_type: &str, group_id: &Option<String>, user_id: &Option<String>) -> (r: Result<
    SendTarget,
    RespError,
>)
    ensures
        match send_target_spec(
            detail_type@,
            match group_id {
                Some(s) => Some(s@),
                None => None,
            },
            match user_id {
                Some(s) => Some(s@),
                None => None,
            },
        ) {
            Ok(t) => r == Ok::<SendTarget, RespError>(t),
            Err(d) => r matches Err(e) && if d == detail_type@ && detail_type@ != "group"@ && detail_type@
                != "group_temp"@ && detail_type@ != "private"@ {
                is_error(e, 10004, "不支持的动作请求参数"@, d)
            } else {
                is_error(e, 10003, "无效的动作请求参数"@, d)
            },
        },
{
    proof {
        reveal_strlit("group");
        reveal_strlit("group_temp");
        reveal_strlit("private");
        reveal_strlit("group_id");
        reveal_strlit("user_id");
    }
    if str_eq(detail_type, "group") {
        match required_id(group_id, "group_id") {
            Ok(c) => Ok(SendTarget::Group { group_code: c }),
            Err(e) => Err(e),
        }
    } else if str_eq(detail_type, "group_temp") {
        match required_id(group_id, "group_id") {
            Ok(c) => match required_id(user_id, "user_id") {
                Ok(t) => Ok(SendTarget::GroupTemp { group_code: c, user: t }),
                Err(e) => Err(e),
            },
            Err(e) => Err(e),
        }
    } else if str_eq(detail_type, "private") {
        match required_id(user_id, "user_id") {
            Ok(t) => Ok(SendTarget::Private { user: t }),
            Err(e) => Err(e),
        }
    } else {
        Err(unsupported_param(detail_type))
    }
}

/// The builder for a message to `t`: a group message is built for the group,
/// the others for the user.
pub fn target_builder(t: SendTarget) -> (b: MsgChainBuilder)
    ensures
        match t {
            SendTarget::Group { group_code } => is_fresh(b, group_code, true),
            SendTarget::GroupTemp { user, .. } => is_fresh(b, user, false),
            SendTarget::Private { user } => is_fresh(b, user, false),
        },
{
    match t {
        SendTarget::Group { group_code } => MsgChainBuilder::group_chain_builder(group_code),
        SendTarget::GroupTemp { user, .. } => MsgChainBuilder::private_chain_builder(user),
        SendTarget::Private { user } => MsgChainBuilder::private_chain_builder(user),
    }
}

/// Whether what was built can be sent to `t`: a group takes anything; a
/// temporary session takes only a message; a friend takes a message or a
/// voice.
pub fn check_sendable(t: SendTarget, item: &RQSendItem) -> (r: Result<(), RespError>)
    ensures
        match (t, *item) {
            (SendTarget::GroupTemp { .. }, RQSendItem::Forward(_)) => r matches Err(e) && is_error(
                e,
                10004,
                "不支持的动作请求参数"@,
                "forward"@,
            ),
            (SendTarget::GroupTemp { .. }, RQSendItem::Voice(_)) => r matches Err(e) && is_error(
                e,
                10004,
                "不支持的动作请求参数"@,
                "voice"@,
            ),
            (SendTarget::Private { .. }, RQSendItem::Forward(_)) => r matches Err(e) && is_error(
                e,
                10005,
                "不支持的消息段类型"@,
                "forward"@,
            ),
            _ => r is Ok,
        },
{
    match t {
        SendTarget::Group { .. } => Ok(()),
        SendTarget::GroupTemp { .. } => match item {
            RQSendItem::Chain(_) => Ok(()),
            RQSendItem::Forward(_) => Err(unsupported_param("forward")),
            RQSendItem::Voice(_) => Err(unsupported_param("voice")),
        },
        SendTarget::Private { .. } => match item {
            RQSendItem::Forward(_) => Err(unsupported_segment("forward")),
            _ => Ok(()),
        },
    }
}

/// The element a segment becomes in a plain message: text stays text, a
/// mention of a number shows the number, a mention of no number is dropped,
/// and any other segment is replaced by a note that it is not supported.
pub open spec fn plain_elem(seg: WQSegment) -> Option<ChainElem> {
    match seg {
        WQSegment::Text { text } => Some(ChainElem::Text(text)),
        WQSegment::Mention { user_id } => match parse_i64_spec(user_id@) {
            Some(t) => Some(ChainElem::At { target: t, display: user_id }),
            None => None,
        },
        _ => None,
    }
}

/// Whether `e` is what `seg` becomes in a plain message.
pub open spec fn plain_elem_of(seg: WQSegment, e: ChainElem) -> bool {
    match seg {
        WQSegment::MentionAll => e matches ChainElem::At { target, display } && target == 0 && display@ == "all"@,
        WQSegment::Text { .. } => Some(e) == plain_elem(seg),
        WQSegment::Mention { .. } => Some(e) == plain_elem(seg),
        _ => e matches ChainElem::Text(t) && t@ == "unsupported MessageSegment"@,
    }
}

/// Whether `seg` is dropped from a plain message.
pub open spec fn plain_dropped(seg: WQSegment) -> bool {
    seg matches WQSegment::Mention { user_id } && parse_i64_spec(user_id@) is None
}

/// The plain message made of some segments, each in order.
pub open spec fn plain_chain_of(segs: Seq<WQSegment>, chain: Seq<ChainElem>) -> bool
    decreases segs.len(),
{
    if segs.len() == 0 {
        chain.len() == 0
    } else if plain_dropped(segs.last()) {
        plain_chain_of(segs.drop_last(), chain)
    } else {
        chain.len() > 0 && plain_elem_of(segs.last(), chain.last()) && plain_chain_of(segs.drop_last(), chain.drop_last())
    }
}

/// A plain message from segments, without stored files or lookups: text,
/// mentions of numbers and mentions of everyone go in; a mention of no number
/// is dropped; anything else is replaced by a note.
pub fn msg_seg_vec2msg_chain(v: Vec<WQSegment>) -> (chain: Vec<ChainElem>)
    ensures
        plain_chain_of(v@, chain@),
{
    let ghost all = v@;
    let mut rest = v;
    let n = rest.len();
    let mut chain: Vec<ChainElem> = Vec::new();
    let mut i: usize = 0;
    proof {
        assert(all.skip(0) =~= all);
        assert(all.take(0) =~= Seq::<WQSegment>::empty());
    }
    while i < n
        invariant
            n == all.len(),
            i <= n,
            rest@ == all.skip(i as int),
            plain_chain_of(all.take(i as int), chain@),
        decreases n - i,
    {
        let seg = rest.remove(0);
        assert(seg == all[i as int]);
        assert(rest@ =~= all.skip(i + 1));
        let ghost before = chain@;
        let ghost s0 = seg;
        match seg {
            WQSegment::Text { text } => chain.push(ChainElem::Text(text)),
            WQSegment::Mention { user_id } => match parse_i64_str(user_id.as_str()) {
                Some(t) => chain.push(ChainElem::At { target: t, display: user_id }),
                None => {},
            },
            WQSegment::MentionAll => chain.push(ChainElem::At { target: 0, display: lit("all") }),
            _ => chain.push(ChainElem::Text(lit("unsupported MessageSegment"))),
        }
        proof {
            let t = all.take(i + 1);
            assert(t.drop_last() =~= all.take(i as int));
            assert(t.last() == s0);
            if !plain_dropped(s0) {
                assert(chain@.drop_last() =~= before);
            }
        }
        i = i + 1;
    }
    proof {
        assert(all.take(n as int) =~= all);
    }
    chain
}

/// The segment a plain segment of text or a mention is, as a OneBot client
/// writes it.
pub open spec fn plain_segment_view(segment: WQSegment) -> MsgSegmentView {
    match segment {
        WQSegment::Text { text } => seg("text"@, seq![str_entry("text"@, text@)]),
        WQSegment::MentionAll => seg("mention_all"@, Seq::empty()),
        WQSegment::Mention { user_id } => seg("mention"@, seq![str_entry("user_id"@, user_id@)]),
        _ => seg("unsupported"@, Seq::empty()),
    }
}

/// Whether a segment is text, a mention of everyone, or a mention of a user
/// whose number (from 1 to `u32::MAX`) is written as `to_string` writes it.
pub open spec fn plain_round_trips(segment: WQSegment) -> bool {
    match segment {
        WQSegment::Text { .. } => true,
        WQSegment::MentionAll => true,
        WQSegment::Mention { user_id } => exists|n: i64| 0 < n <= u32::MAX && user_id@ == #[trigger] int_chars(n as int),
        _ => false,
    }
}

/// The element QQ hands back for a text or mention element that was sent:
/// the text as text, the mention with its target and display text.
pub open spec fn received_elem(e: ChainElem) -> RQElem {
    match e {
        ChainElem::Text(t) => RQElem::Text { content: t },
        ChainElem::At { target, display } => RQElem::At { target, display },
        _ => RQElem::Other,
    }
}

/// Text, mentions of everyone and mentions of users by their number, made
/// into a plain message and read back as segments, are the segments again.
pub proof fn lemma_plain_chain_round_trip(segs: Seq<WQSegment>, chain: Seq<ChainElem>)
    requires
        forall|i: int| 0 <= i < segs.len() ==> plain_round_trips(#[trigger] segs[i]),
        plain_chain_of(segs, chain),
    ensures
        elems_segments(chain.map_values(|e: ChainElem| received_elem(e))) == segs.map_values(
            |s: WQSegment| plain_segment_view(s),
        ),
    decreases segs.len(),
{
    let cm = chain.map_values(|e: ChainElem| received_elem(e));
    let sm = segs.map_values(|s: WQSegment| plain_segment_view(s));
    if segs.len() == 0 {
        assert(cm =~= Seq::<RQElem>::empty());
        assert(sm =~= Seq::<MsgSegmentView>::empty());
    } else {
        let last = segs.last();
        assert(plain_round_trips(segs[segs.len() - 1]));
        match last {
            WQSegment::Mention { user_id } => {
                let n = choose|n: i64| 0 < n <= u32::MAX && user_id@ == #[trigger] int_chars(n as int);
                lemma_parse_i64_roundtrip(n);
            },
            _ => {},
        }
        assert(!plain_dropped(last));
        assert forall|i: int| 0 <= i < segs.drop_last().len() implies plain_round_trips(
            #[trigger] segs.drop_last()[i],
        ) by {
            assert(segs.drop_last()[i] == segs[i]);
        }
        lemma_plain_chain_round_trip(segs.drop_last(), chain.drop_last());
        assert(cm.drop_last() =~= chain.drop_last().map_values(|e: ChainElem| received_elem(e)));
        assert(cm.last() == received_elem(chain.last()));
        assert(sm.drop_last() =~= segs.drop_last().map_values(|s: WQSegment| plain_segment_view(s)));
        assert(sm.last() == plain_segment_view(last));
        assert(sm =~= sm.drop_last().push(sm.last()));
    }
}

} // verus!
