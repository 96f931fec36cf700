//! Where messages, images and voices are kept: in one or more stores, all
//! written to and read in order until one has the entry.  Local voices and
//! images are files named by their identifier.
use vstd::prelude::*;
use crate::hexcode::{hex_encode_spec, media_id_spec, hex_media_id};
use crate::resp::{RespError, is_error, message_not_exist};
use crate::segment::lit;
use crate::strutil::{push_chars, str_to_chars};

verus! {

/// A message store.
#[derive(Debug, Clone, Copy, PartialEq, Eq)]
pub enum Backend {
    Sled,
    Level,
}

/// The stores, in the order they are asked.
#[derive(Debug)]
pub struct WQDatabase {
    pub backends: Vec<Backend>,
}

impl View for WQDatabase {
    type V = Seq<Backend>;

    open spec fn view(&self) -> Seq<Backend> {
        self.backends@
    }
}

/// The stores the settings ask for: sled first when it is on, then LevelDB
/// when it is on.
pub open spec fn backends_for(sled: bool, leveldb: bool) -> Seq<Backend> {
    let s = if sled { seq![Backend::Sled] } else { Seq::empty() };
    if leveldb { s.push(Backend::Level) } else { s }
}

impl Default for WQDatabase {
    /// No store at all.
    fn default() -> (d: WQDatabase)
        ensures
            d@ == Seq::<Backend>::empty(),
    {
        WQDatabase { backends: Vec::new() }
    }
}

impl WQDatabase {
    /// The same stores and a sled store after them.
    pub fn sled(self) -> (d: WQDatabase)
        ensures
            d@ == self@.push(Backend::Sled),
    {
        let mut backends = self.backends;
        backends.push(Backend::Sled);
        WQDatabase { backends }
    }

    /// The same stores and a LevelDB store after them.
    pub fn level(self) -> (d: WQDatabase)
        ensures
            d@ == self@.push(Backend::Level),
    {
        let mut backends = self.backends;
        backends.push(Backend::Level);
        WQDatabase { backends }
    }

    /// Whether there is any store: messages are then known by their first
    /// sequence number.
    pub fn not_empty(&self) -> (b: bool)
        ensures
            b == (self@.len() > 0),
    {
        self.backends.len() > 0
    }
}

/// What a read gives, from what each store answered in order: the first
/// error or entry found, else nothing.
pub open spec fn first_hit_spec<T>(answers: Seq<Result<Option<T>, RespError>>) -> Result<Option<T>, RespError>
    decreases answers.len(),
{
    if answers.len() == 0 {
        Ok(None)
    } else {
        match answers[0] {
            Ok(None) => first_hit_spec(answers.drop_first()),
            a => a,
        }
    }
}

/// What a read gives, from what the stores answered in order: the first
/// store that fails, or has the entry, decides; when none does, there is no
/// entry.
pub fn first_hit<T>(answers: Vec<Result<Option<T>, RespError>>) -> (r: Result<Option<T>, RespError>)
    ensures
        r == first_hit_spec(answers@),
{
    let mut rest = answers;
    let ghost all = rest@;
    proof {
        assert(all.skip(0) =~= all);
    }
    while rest.len() > 0
        invariant
            all == answers@,
            first_hit_spec(all) == first_hit_spec(rest@),
        decreases rest@.len(),
    {
        let ghost before = rest@;
        let a = rest.remove(0);
        assert(rest@ =~= before.drop_first());
        assert(a == before[0]);
        match a {
            Ok(None) => {},
            other => {
                assert(!(before[0] matches Ok(None)));
                assert(first_hit_spec(before) == before[0]);
                return other;
            },
        }
    }
    Ok(None)
}

/// What a read of a message gives, from what each store answered in order:
/// the first entry found; a store that fails counts as one without it.
pub open spec fn first_message_spec<T>(answers: Seq<Result<Option<T>, RespError>>) -> Option<T>
    decreases answers.len(),
{
    if answers.len() == 0 {
        None
    } else {
        match answers[0] {
            Ok(Some(v)) => Some(v),
            _ => first_message_spec(answers.drop_first()),
        }
    }
}

/// What a read of a message gives, from what the stores answered in order:
/// the first store that has the entry decides, and failing stores are passed
/// over.
pub fn first_message<T>(answers: Vec<Result<Option<T>, RespError>>) -> (r: Option<T>)
    ensures
        r == first_message_spec(answers@),
{
    let mut rest = answers;
    let ghost all = rest@;
    while rest.len() > 0
        invariant
            all == answers@,
            first_message_spec(all) == first_message_spec(rest@),
        decreases rest@.len(),
    {
        let ghost before = rest@;
        let a = rest.remove(0);
        assert(rest@ =~= before.drop_first());
        assert(a == before[0]);
        match a {
            Ok(Some(v)) => {
                return Some(v);
            },
            _ => {},
        }
    }
    None
}

/// Something that is stored under its message identifier.
pub trait MessageId {
    /// The identifier it is stored under.
    fn message_id(&self) -> String;
}

/// Where stored voices are kept.
pub open spec fn voice_dir() -> Seq<char> {
    "./data/voice/"@
}

/// Where stored images are kept.
pub open spec fn image_dir() -> Seq<char> {
    "./data/image/"@
}

/// A voice file of the bot's own, known by its MD5 and size.
#[derive(Debug, Clone)]
pub struct LocalVoice {
    pub md5: Vec<u8>,
    pub size: u32,
}

/// The MD5 digest of some bytes.
pub uninterp spec fn md5_of(data: Seq<u8>) -> Seq<u8>;

/// `md5::compute`: the 16-byte MD5 digest of `data`.
#[verifier::external_body]
fn md5_digest(data: &[u8]) -> (d: Vec<u8>)
    ensures
        d@ == md5_of(data@),
        d@.len() == 16,
{
    md5::compute(data).0.to_vec()
}

impl LocalVoice {
    /// The voice whose file holds `data`: its MD5, and its size (as the low
    /// 32 bits of the length).
    pub fn from_data(data: &[u8]) -> (v: LocalVoice)
        ensures
            v.md5@ == md5_of(data@),
            v.size == data@.len() as u32,
    {
        let n = data.len();
        LocalVoice { md5: md5_digest(data), size: n as u32 }
    }

    /// The voice's identifier in text.
    pub fn hex_voice_id(&self) -> (s: String)
        ensures
            s@ == hex_encode_spec(media_id_spec(self.md5@, self.size)),
    {
        hex_media_id(self.md5.as_slice(), self.size)
    }

    /// Where the voice's file is: the voice directory and its identifier.
    pub fn path(&self) -> (s: String)
        ensures
            s@ == voice_dir() + hex_encode_spec(media_id_spec(self.md5@, self.size)),
    {
        let mut s = lit("./data/voice/");
        let id = self.hex_voice_id();
        let cs = str_to_chars(id.as_str());
        push_chars(&mut s, &cs);
        s
    }
}

/// Where the file of the image with this MD5 and size is.
pub fn image_path(md5: &[u8], size: u32) -> (s: String)
    ensures
        s@ == image_dir() + hex_encode_spec(media_id_spec(md5@, size)),
{
    let mut s = lit("./data/image/");
    let id = hex_media_id(md5, size);
    let cs = str_to_chars(id.as_str());
    push_chars(&mut s, &cs);
    s
}

/// A stored message, or `message_not_exist` naming the identifier asked for.
pub fn stored_message<T>(message_id: &str, found: Option<T>) -> (r: Result<T, RespError>)
    ensures
        match found {
            Some(m) => r == Ok::<T, RespError>(m),
            None => r matches Err(e) && is_error(e, 35001, "消息不存在"@, message_id@),
        },
{
    match found {
        Some(m) => Ok(m),
        None => Err(message_not_exist(message_id)),
    }
}

/// The identifier a file with this content is stored under: its MD5 and its
/// size (the low 32 bits of its length), in hexadecimal.
pub fn content_file_id(data: &[u8]) -> (s: String)
    ensures
        s@ == hex_encode_spec(media_id_spec(md5_of(data@), data@.len() as u32)),
{
    let v = LocalVoice::from_data(data);
    hex_media_id(v.md5.as_slice(), v.size)
}

/// How many writes a LevelDB store takes before its cache is flushed to disk.
pub const MEM_CACHE_LIMIT: usize = 10;

/// The write counter of a LevelDB store after one more write: past the limit
/// the cache is flushed and the count starts again.
pub open spec fn after_write(count: int) -> int {
    if count > MEM_CACHE_LIMIT { 0 } else { count + 1 }
}

/// What one write does to a LevelDB store's counter: whether the cache is
/// flushed now, and the count afterwards.
pub fn flush_step(count: usize) -> (r: (bool, usize))
    requires
        count <= MEM_CACHE_LIMIT + 1,
    ensures
        r.0 == (count > MEM_CACHE_LIMIT),
        r.1 == after_write(count as int),
{
    if count > MEM_CACHE_LIMIT {
        (true, 0)
    } else {
        (false, count + 1)
    }
}

/// The counter after `k` writes to a fresh store.
pub open spec fn count_after(k: nat) -> int
    decreases k,
{
    if k == 0 { 0 } else { after_write(count_after((k - 1) as nat)) }
}

/// A fresh LevelDB store's counter after `k` writes is `k` modulo 12, so the
/// cache is flushed on every twelfth write and never in between.
pub proof fn lemma_flush_every_twelfth_write(k: nat)
    ensures
        count_after(k) == k % 12,
        count_after(k) <= MEM_CACHE_LIMIT + 1,
        (count_after(k) > MEM_CACHE_LIMIT) <==> (k + 1) % 12 == 0,
    decreases k,
{
    if k > 0 {
        lemma_flush_every_twelfth_write((k - 1) as nat);
    }
}

} // verus!
