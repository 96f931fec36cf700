//! Message segments, and the mapping of QQ message elements to them.
//!
//! A QQ message is a chain of elements (text, mentions, faces, images and so
//! on), possibly quoting an earlier message.  OneBot clients see it as a list
//! of segments, each a type and a map of data.
use vstd::prelude::*;
use crate::decimal::{int_chars, i64_to_string};
use crate::hexcode::{hex_encode_spec, media_id_spec, hex_media_id, hex_digit_char};
use crate::strutil::{push_char, push_chars, str_to_chars, copy_string};

verus! {

/// A value in the data of a segment.
#[derive(Debug)]
pub enum Value {
    Str(String),
    Int(i64),
    Bool(bool),
}

/// The mathematical view of a [`Value`].
pub enum ValueView {
    Str(Seq<char>),
    Int(i64),
    Bool(bool),
}

impl View for Value {
    type V = ValueView;

    open spec fn view(&self) -> ValueView {
        match self {
            Value::Str(s) => ValueView::Str(s@),
            Value::Int(i) => ValueView::Int(*i),
            Value::Bool(b) => ValueView::Bool(*b),
        }
    }
}

/// A message segment: its type and its data, in the order the keys were set.
#[derive(Debug)]
pub struct MsgSegment {
    pub ty: String,
    pub data: Vec<(String, Value)>,
}

/// The mathematical view of a [`MsgSegment`].
pub struct MsgSegmentView {
    pub ty: Seq<char>,
    pub data: Seq<(Seq<char>, ValueView)>,
}

impl View for MsgSegment {
    type V = MsgSegmentView;

    open spec fn view(&self) -> MsgSegmentView {
        MsgSegmentView {
            ty: self.ty@,
            data: data_seq(self.data@),
        }
    }
}

/// The view of the data of a segment: each key and value by its view.
pub open spec fn data_seq(d: Seq<(String, Value)>) -> Seq<(Seq<char>, ValueView)> {
    Seq::new(d.len(), |i: int| (d[i].0@, d[i].1@))
}

/// The views of a list of segments.
pub open spec fn segments_view(v: Seq<MsgSegment>) -> Seq<MsgSegmentView> {
    Seq::new(v.len(), |i: int| v[i]@)
}

/// The rock-paper-scissors gesture of a QQ finger-guessing element.
#[derive(Debug, Clone, Copy, PartialEq, Eq)]
pub enum FingerGuessing {
    Rock,
    Scissors,
    Paper,
}

/// What a message element knows of an image: its MD5, its size and the URL it
/// can be fetched from.
#[derive(Debug)]
pub struct ImageElem {
    pub md5: Vec<u8>,
    pub size: u32,
    pub url: String,
}

/// A QQ message element.
#[derive(Debug)]
pub enum RQElem {
    At { target: i64, display: String },
    Text { content: String },
    Face { index: i32, name: String },
    MarketFace { name: String },
    Dice { value: i32 },
    FingerGuessing(FingerGuessing),
    LightApp { content: String },
    RichMsg { service_id: i32, template1: String },
    FriendImage(ImageElem),
    GroupImage(ImageElem),
    /// A flash image; `group` tells a group image from a friend image.
    FlashImage { group: bool, image: ImageElem },
    VideoFile,
    Other,
}

/// The message an element quotes.
#[derive(Debug, Clone, Copy, PartialEq, Eq)]
pub struct ReplyRef {
    pub reply_seq: i32,
    pub sender: i64,
}

/// A QQ message: the message it quotes, if any, and its elements.
#[derive(Debug)]
pub struct MessageChain {
    pub reply: Option<ReplyRef>,
    pub elems: Vec<RQElem>,
}

/// The data entry `key: text`.
pub open spec fn str_entry(key: Seq<char>, v: Seq<char>) -> (Seq<char>, ValueView) {
    (key, ValueView::Str(v))
}

/// The segment `ty` with the data `data`.
pub open spec fn seg(ty: Seq<char>, data: Seq<(Seq<char>, ValueView)>) -> MsgSegmentView {
    MsgSegmentView { ty, data }
}

/// The data of an image segment: its file identifier, its URL, and the flash
/// flag under the key `flash_key`.
pub open spec fn image_data(img: ImageElem, flash_key: Seq<char>, flash: bool) -> Seq<
    (Seq<char>, ValueView),
> {
    seq![
        str_entry("file_id"@, hex_encode_spec(media_id_spec(img.md5@, img.size))),
        str_entry("url"@, img.url@),
        (flash_key, ValueView::Bool(flash)),
    ]
}

/// The segment a message element becomes, if any.  A mention of user 0 is a
/// mention of everyone.  A market face shows as its name.  Friend images carry
/// their flash flag under the key `falsh`, spelt so; group and flash images
/// carry it under `flash`.
pub open spec fn elem_segment(e: RQElem) -> Option<MsgSegmentView> {
    match e {
        RQElem::Text { content } => Some(seg("text"@, seq![str_entry("text"@, content@)])),
        RQElem::At { target, display } => if target == 0 {
            Some(seg("mention_all"@, Seq::empty()))
        } else {
            Some(seg("mention"@, seq![str_entry("user_id"@, int_chars(target as int))]))
        },
        RQElem::Face { index, name } => Some(
            seg(
                "face"@,
                seq![("id"@, ValueView::Int(index as i64)), str_entry("file"@, name@)],
            ),
        ),
        RQElem::MarketFace { name } => Some(seg("text"@, seq![str_entry("text"@, name@)])),
        RQElem::Dice { value } => Some(seg("dice"@, seq![("value"@, ValueView::Int(value as i64))])),
        RQElem::FingerGuessing(f) => Some(
            seg(
                "rps"@,
                seq![
                    (
                        "value"@,
                        ValueView::Int(
                            match f {
                                FingerGuessing::Rock => 0i64,
                                FingerGuessing::Paper => 1i64,
                                FingerGuessing::Scissors => 2i64,
                            },
                        ),
                    ),
                ],
            ),
        ),
        RQElem::LightApp { content } => Some(seg("json"@, seq![str_entry("data"@, content@)])),
        RQElem::RichMsg { service_id, template1 } => Some(
            seg(
                "xml"@,
                seq![
                    ("service_id"@, ValueView::Int(service_id as i64)),
                    str_entry("data"@, template1@),
                ],
            ),
        ),
        RQElem::FriendImage(img) => Some(seg("image"@, image_data(img, "falsh"@, false))),
        RQElem::GroupImage(img) => Some(seg("image"@, image_data(img, "flash"@, false))),
        RQElem::FlashImage { group, image } => Some(
            seg("image"@, image_data(image, "flash"@, true)),
        ),
        RQElem::VideoFile => None,
        RQElem::Other => None,
    }
}

/// A finger-guessing element becomes the segment `rps` whose one entry
/// `value` is 0 for rock, 1 for paper and 2 for scissors.
pub proof fn law_rps_values(f: FingerGuessing)
    ensures
        elem_segment(RQElem::FingerGuessing(f)) matches Some(s) && s.ty == seq!['r', 'p', 's']
            && s.data.len() == 1 && s.data[0].0 == seq!['v', 'a', 'l', 'u', 'e'],
        f == FingerGuessing::Rock ==> elem_segment(RQElem::FingerGuessing(f)).unwrap().data[0].1
            == ValueView::Int(0),
        f == FingerGuessing::Paper ==> elem_segment(RQElem::FingerGuessing(f)).unwrap().data[0].1
            == ValueView::Int(1),
        f == FingerGuessing::Scissors ==> elem_segment(RQElem::FingerGuessing(f)).unwrap().data[0].1
            == ValueView::Int(2),
{
    reveal_strlit("rps");
    reveal_strlit("value");
}

/// Whether the image of this element is stored in the database when the
/// message is received: every friend, group and flash image is.
pub open spec fn stores_image_spec(e: RQElem) -> bool {
    match e {
        RQElem::FriendImage(_) => true,
        RQElem::GroupImage(_) => true,
        RQElem::FlashImage { .. } => true,
        _ => false,
    }
}

/// Whether the image of this element is stored when the message is received.
pub fn stores_image(e: &RQElem) -> (b: bool)
    ensures
        b == stores_image_spec(*e),
{
    match e {
        RQElem::FriendImage(_) => true,
        RQElem::GroupImage(_) => true,
        RQElem::FlashImage { .. } => true,
        _ => false,
    }
}

/// A string holding the literal `s`.
pub fn lit(s: &str) -> (r: String)
    ensures
        r@ == s@,
{
    String::from_str(s)
}

fn str_value(key: &str, v: String) -> (r: (String, Value))
    ensures
        r.0@ == key@,
        r.1@ == ValueView::Str(v@),
{
    (lit(key), Value::Str(v))
}

fn image_segment(img: ImageElem, flash_key: &str, flash: bool) -> (s: MsgSegment)
    ensures
        s@ == seg("image"@, image_data(img, flash_key@, flash)),
{
    let file_id = hex_media_id(img.md5.as_slice(), img.size);
    let mut data: Vec<(String, Value)> = Vec::new();
    data.push(str_value("file_id", file_id));
    data.push(str_value("url", img.url));
    data.push((lit(flash_key), Value::Bool(flash)));
    let s = MsgSegment { ty: lit("image"), data };
    assert(s@.data =~= image_data(img, flash_key@, flash));
    s
}

/// The segment a QQ message element becomes, if any.
pub fn rq_elem2msg_seg(elem: RQElem) -> (r: Option<MsgSegment>)
    ensures
        match r {
            Some(s) => elem_segment(elem) == Some(s@),
            None => elem_segment(elem) is None,
        },
{
    let ghost e0 = elem;
    match elem {
        RQElem::Text { content } => {
            let mut data: Vec<(String, Value)> = Vec::new();
            data.push(str_value("text", content));
            let s = MsgSegment { ty: lit("text"), data };
            assert(s@.data =~= seq![str_entry("text"@, e0->Text_content@)]);
            Some(s)
        },
        RQElem::At { target, display } => {
            if target == 0 {
                let s = MsgSegment { ty: lit("mention_all"), data: Vec::new() };
                assert(s@.data =~= Seq::<(Seq<char>, ValueView)>::empty());
                Some(s)
            } else {
                let mut data: Vec<(String, Value)> = Vec::new();
                data.push(str_value("user_id", i64_to_string(target)));
                let s = MsgSegment { ty: lit("mention"), data };
                assert(s@.data =~= seq![str_entry("user_id"@, int_chars(target as int))]);
                Some(s)
            }
        },
        RQElem::Face { index, name } => {
            let mut data: Vec<(String, Value)> = Vec::new();
            data.push((lit("id"), Value::Int(index as i64)));
            data.push(str_value("file", name));
            let s = MsgSegment { ty: lit("face"), data };
            assert(s@.data =~= seq![
                ("id"@, ValueView::Int(index as i64)),
                str_entry("file"@, e0->Face_name@),
            ]);
            Some(s)
        },
        RQElem::MarketFace { name } => {
            let mut data: Vec<(String, Value)> = Vec::new();
            data.push(str_value("text", name));
            let s = MsgSegment { ty: lit("text"), data };
            assert(s@.data =~= seq![str_entry("text"@, e0->MarketFace_name@)]);
            Some(s)
        },
        RQElem::Dice { value } => {
            let mut data: Vec<(String, Value)> = Vec::new();
            data.push((lit("value"), Value::Int(value as i64)));
            let s = MsgSegment { ty: lit("dice"), data };
            assert(s@.data =~= seq![("value"@, ValueView::Int(value as i64))]);
            Some(s)
        },
        RQElem::FingerGuessing(f) => {
            let v: i64 = match f {
                FingerGuessing::Rock => 0,
                FingerGuessing::Paper => 1,
                FingerGuessing::Scissors => 2,
            };
            let mut data: Vec<(String, Value)> = Vec::new();
            data.push((lit("value"), Value::Int(v)));
            let s = MsgSegment { ty: lit("rps"), data };
            assert(s@.data =~= seq![("value"@, ValueView::Int(v))]);
            Some(s)
        },
        RQElem::LightApp { content } => {
            let mut data: Vec<(String, Value)> = Vec::new();
            data.push(str_value("data", content));
            let s = MsgSegment { ty: lit("json"), data };
            assert(s@.data =~= seq![str_entry("data"@, e0->LightApp_content@)]);
            Some(s)
        },
        RQElem::RichMsg { service_id, template1 } => {
            let mut data: Vec<(String, Value)> = Vec::new();
            data.push((lit("service_id"), Value::Int(service_id as i64)));
            data.push(str_value("data", template1));
            let s = MsgSegment { ty: lit("xml"), data };
            assert(s@.data =~= seq![
                ("service_id"@, ValueView::Int(service_id as i64)),
                str_entry("data"@, e0->template1@),
            ]);
            Some(s)
        },
        RQElem::FriendImage(img) => Some(image_segment(img, "falsh", false)),
        RQElem::GroupImage(img) => Some(image_segment(img, "flash", false)),
        RQElem::FlashImage { group, image } => Some(image_segment(image, "flash", true)),
        RQElem::VideoFile => None,
        RQElem::Other => None,
    }
}

/// The segments of a list of elements, in order, skipping those that become
/// no segment.
pub open spec fn elems_segments(elems: Seq<RQElem>) -> Seq<MsgSegmentView>
    decreases elems.len(),
{
    if elems.len() == 0 {
        Seq::empty()
    } else {
        let rest = elems_segments(elems.drop_last());
        match elem_segment(elems.last()) {
            Some(s) => rest.push(s),
            None => rest,
        }
    }
}

/// The segment quoting the message `r`.
pub open spec fn reply_segment(r: ReplyRef) -> MsgSegmentView {
    seg(
        "reply"@,
        seq![
            str_entry("message_id"@, int_chars(r.reply_seq as int)),
            str_entry("user_id"@, int_chars(r.sender as int)),
        ],
    )
}

/// The segments of a QQ message: the quote first when there is one, then the
/// segments of its elements.
pub open spec fn chain_segments(chain: MessageChain) -> Seq<MsgSegmentView> {
    match chain.reply {
        Some(r) => seq![reply_segment(r)] + elems_segments(chain.elems@),
        None => elems_segments(chain.elems@),
    }
}

/// The segments of a QQ message.
pub fn msg_chain2msg_seg_vec(chain: MessageChain) -> (v: Vec<MsgSegment>)
    ensures
        segments_view(v@) == chain_segments(chain),
{
    let ghost c0 = chain;
    let MessageChain { reply, elems } = chain;
    let mut rv: Vec<MsgSegment> = Vec::new();
    if let Some(r) = reply {
        let mut data: Vec<(String, Value)> = Vec::new();
        data.push(str_value("message_id", i64_to_string(r.reply_seq as i64)));
        data.push(str_value("user_id", i64_to_string(r.sender)));
        let s = MsgSegment { ty: lit("reply"), data };
        assert(s@.data =~= reply_segment(r).data);
        rv.push(s);
    }
    let ghost prefix = segments_view(rv@);
    let ghost all = c0.elems@;
    let mut rest = elems;
    let n = rest.len();
    let mut i: usize = 0;
    proof {
        assert(all.take(0) =~= Seq::<RQElem>::empty());
        assert(all.len() == n);
        assert(rest@ =~= all.skip(0));
        assert(segments_view(rv@) =~= prefix + elems_segments(all.take(0)));
    }
    while rest.len() > 0
        invariant
            i <= all.len(),
            all.len() <= usize::MAX,
            rest@ == all.skip(i as int),
            segments_view(rv@) == prefix + elems_segments(all.take(i as int)),
        decreases rest.len(),
    {
        let e = rest.remove(0);
        proof {
            assert(e == all[i as int]);
            assert(all.take(i + 1).drop_last() =~= all.take(i as int));
            assert(all.take(i + 1).last() == all[i as int]);
        }
        let ghost before = segments_view(rv@);
        match rq_elem2msg_seg(e) {
            Some(s) => {
                rv.push(s);
                proof {
                    assert(segments_view(rv@) =~= before.push(s@));
                }
            },
            None => {},
        }
        i = i + 1;
        proof {
            assert(rest@ =~= all.skip(i as int));
            assert(segments_view(rv@) =~= prefix + elems_segments(all.take(i as int)));
        }
    }
    proof {
        assert(all.take(i as int) =~= all);
        match c0.reply {
            Some(r) => {
                assert(prefix =~= seq![reply_segment(r)]);
            },
            None => {
                assert(prefix =~= Seq::<MsgSegmentView>::empty());
            },
        }
    }
    rv
}

/// How `serde_json` writes the character `c` inside a JSON string: a quote
/// and a backslash behind a backslash; backspace, tab, line feed, form feed
/// and carriage return as `\b`, `\t`, `\n`, `\f` and `\r`; the other
/// control characters below 0x20 as `\u00` and two lowercase hexadecimal
/// digits; every other character as it is.
pub open spec fn json_escape(c: char) -> Seq<char> {
    let n = c as int;
    if c == '"' {
        seq!['\\', '"']
    } else if c == '\\' {
        seq!['\\', '\\']
    } else if n == 8 {
        seq!['\\', 'b']
    } else if n == 9 {
        seq!['\\', 't']
    } else if n == 10 {
        seq!['\\', 'n']
    } else if n == 12 {
        seq!['\\', 'f']
    } else if n == 13 {
        seq!['\\', 'r']
    } else if n < 32 {
        seq!['\\', 'u', '0', '0', hex_digit_char(n / 16), hex_digit_char(n % 16)]
    } else {
        seq![c]
    }
}

/// The characters of `s`, each escaped as in a JSON string.
pub open spec fn json_escaped(s: Seq<char>) -> Seq<char>
    decreases s.len(),
{
    if s.len() == 0 {
        Seq::empty()
    } else {
        json_escaped(s.drop_last()) + json_escape(s.last())
    }
}

/// The JSON string literal of `s`.
pub open spec fn json_str(s: Seq<char>) -> Seq<char> {
    seq!['"'] + json_escaped(s) + seq!['"']
}

/// The JSON text of a value: a string as a string literal, an integer in
/// decimal, a flag as `true` or `false`.
pub open spec fn json_value(v: ValueView) -> Seq<char> {
    match v {
        ValueView::Str(s) => json_str(s),
        ValueView::Int(i) => int_chars(i as int),
        ValueView::Bool(b) => if b {
            seq!['t', 'r', 'u', 'e']
        } else {
            seq!['f', 'a', 'l', 's', 'e']
        },
    }
}

/// The JSON member of one entry: the key as a JSON string, `:`, the value.
pub open spec fn json_member(e: (Seq<char>, ValueView)) -> Seq<char> {
    json_str(e.0) + seq![':'] + json_value(e.1)
}

/// The members of the entries `p`, in their order, with `,` between them.
pub open spec fn json_members(p: Seq<(Seq<char>, ValueView)>) -> Seq<char>
    decreases p.len(),
{
    if p.len() == 0 {
        Seq::empty()
    } else if p.len() == 1 {
        json_member(p[0])
    } else {
        json_members(p.drop_last()) + seq![','] + json_member(p.last())
    }
}

/// The map the data of a segment stands for: of two entries with one key,
/// the later one stays.
pub open spec fn data_map(d: Seq<(Seq<char>, ValueView)>) -> Map<Seq<char>, ValueView>
    decreases d.len(),
{
    if d.len() == 0 {
        Map::empty()
    } else {
        data_map(d.drop_last()).insert(d.last().0, d.last().1)
    }
}

/// Whether `p` lists the entries of the map `m`, each key once, in some order.
pub open spec fn lists_map(p: Seq<(Seq<char>, ValueView)>, m: Map<Seq<char>, ValueView>) -> bool {
    &&& forall|i: int, j: int| 0 <= i < j < p.len() ==> #[trigger] p[i].0 != #[trigger] p[j].0
    &&& forall|i: int| 0 <= i < p.len() ==> m.contains_key(#[trigger] p[i].0) && m[p[i].0] == p[i].1
    &&& forall|k: Seq<char>| #[trigger] m.contains_key(k) ==> exists|i: int| 0 <= i < p.len() && #[trigger] p[i].0 == k
}

/// Whether `text` is how compact JSON writes the map of the data `d`: `{`,
/// the entries of the map in some order, each key once, with `,` between
/// them, then `}`.
pub open spec fn json_of_data(d: Seq<(Seq<char>, ValueView)>, text: Seq<char>) -> bool {
    exists|p: Seq<(Seq<char>, ValueView)>| #[trigger] lists_map(p, data_map(d)) && text == seq!['{'] + json_members(p) + seq!['}']
}

/// The only listing of the map of one entry is that entry.
proof fn lemma_single_listing(d: Seq<(Seq<char>, ValueView)>, p: Seq<(Seq<char>, ValueView)>)
    requires
        d.len() == 1,
        lists_map(p, data_map(d)),
    ensures
        p == d,
{
    reveal_with_fuel(data_map, 2);
    let k = d[0].0;
    assert(d.drop_last() =~= Seq::<(Seq<char>, ValueView)>::empty());
    assert(data_map(d) =~= Map::<Seq<char>, ValueView>::empty().insert(k, d[0].1));
    assert(data_map(d).contains_key(k));
    let i = choose|i: int| 0 <= i < p.len() && #[trigger] p[i].0 == k;
    if p.len() > 1 {
        let j: int = if i == 0 { 1 } else { 0 };
        assert(data_map(d).contains_key(p[j].0));
        assert(p[j].0 == k);
        if i < j {
            assert(p[i].0 != p[j].0);
        } else {
            assert(p[j].0 != p[i].0);
        }
    }
    assert(p.len() == 1);
    assert(p[0].0 == k);
    assert(data_map(d)[k] == d[0].1);
    assert(p =~= d);
}

/// The JSON text of the data of a segment, through `walle_core`'s value map
/// and `serde_json::to_string`, with a failure as `None`.  Serialising a map
/// of strings to strings, integers and flags cannot fail, so the text is
/// always there: the compact JSON object of the map the data stands for,
/// each key once with the last value given for it.  The map is a hash map,
/// whose order of keys is seeded anew in each process; the contract says
/// that the entries come in some order, not which.
#[verifier::external_body]
fn data_json(data: &Vec<(String, Value)>) -> (r: Option<String>)
    ensures
        r is Some,
        json_of_data(data_seq(data@), r.unwrap()@),
{
    let mut map = walle_core::util::ValueMap::new();
    for (k, v) in data.iter() {
        let value: walle_core::util::Value = match v {
            Value::Str(s) => s.clone().into(),
            Value::Int(i) => (*i).into(),
            Value::Bool(b) => (*b).into(),
        };
        map.insert(k.clone(), value);
    }
    serde_json::to_string(&map).ok()
}

/// The text of a string value stored under `key` in the map of `data`, or
/// the empty text when the map has no such key or its value is no string.
pub open spec fn text_of(data: Seq<(Seq<char>, ValueView)>, key: Seq<char>) -> Seq<char> {
    if data_map(data).contains_key(key) {
        match data_map(data)[key] {
            ValueView::Str(s) => s,
            _ => Seq::empty(),
        }
    } else {
        Seq::empty()
    }
}

/// Entries after position `j` with another key leave the value of `k` in the
/// map as it stood after the first `j` entries.
proof fn lemma_data_map_tail(d: Seq<(Seq<char>, ValueView)>, j: int, k: Seq<char>)
    requires
        0 <= j <= d.len(),
        forall|i: int| j <= i < d.len() ==> #[trigger] d[i].0 != k,
    ensures
        data_map(d).contains_key(k) == data_map(d.take(j)).contains_key(k),
        data_map(d.take(j)).contains_key(k) ==> data_map(d)[k] == data_map(d.take(j))[k],
    decreases d.len(),
{
    if d.len() == j {
        assert(d.take(j) =~= d);
    } else {
        assert(d[d.len() - 1].0 != k);
        lemma_data_map_tail(d.drop_last(), j, k);
        assert(d.drop_last().take(j) =~= d.take(j));
    }
}

/// The text a segment shows in a summary of its message, where it is a
/// function of the segment: a text segment its text, a segment without data
/// `[type]`, and a segment with one data entry `[type,`, the key as a JSON
/// string, `:`, the value as JSON, then `]`.
pub open spec fn alt_known(s: MsgSegmentView) -> Option<Seq<char>> {
    if s.ty == "text"@ {
        Some(text_of(s.data, "text"@))
    } else if s.data.len() == 0 {
        Some(seq!['['] + s.ty + seq![']'])
    } else if s.data.len() == 1 {
        Some(
            seq!['['] + s.ty + seq![','] + json_str(s.data[0].0) + seq![':'] + json_value(
                s.data[0].1,
            ) + seq![']'],
        )
    } else {
        None
    }
}

fn text_value(data: &Vec<(String, Value)>, key: &str) -> (r: String)
    ensures
        r@ == text_of(data_seq(data@), key@),
{
    let ghost d = data_seq(data@);
    let k = str_to_chars(key);
    let mut i: usize = data.len();
    while i > 0
        invariant
            i <= data@.len(),
            d == data_seq(data@),
            k@ == key@,
            forall|j: int| i <= j < d.len() ==> #[trigger] d[j].0 != key@,
        decreases i,
    {
        let entry_key = str_to_chars(data[i - 1].0.as_str());
        if vec_chars_eq(&entry_key, &k) {
            proof {
                lemma_data_map_tail(d, i as int, key@);
                assert(d.take(i as int).drop_last() =~= d.take(i - 1));
                assert(d.take(i as int).last() == d[i - 1]);
                assert(d[i - 1] == (data@[i - 1].0@, data@[i - 1].1@));
            }
            match &data[i - 1].1 {
                Value::Str(s) => {
                    return copy_string(s);
                },
                _ => {
                    return String::new();
                },
            }
        }
        i = i - 1;
    }
    proof {
        lemma_data_map_tail(d, 0, key@);
        assert(d.take(0) =~= Seq::<(Seq<char>, ValueView)>::empty());
    }
    String::new()
}

/// Whether two character vectors hold the same characters.
pub fn vec_chars_eq(a: &Vec<char>, b: &Vec<char>) -> (r: bool)
    ensures
        r == (a@ == b@),
{
    if a.len() != b.len() {
        return false;
    }
    let mut i: usize = 0;
    while i < a.len()
        invariant
            a@.len() == b@.len(),
            i <= a@.len(),
            forall|k: int| 0 <= k < i ==> a@[k] == b@[k],
        decreases a.len() - i,
    {
        if a[i] != b[i] {
            return false;
        }
        i = i + 1;
    }
    assert(a@ =~= b@);
    true
}

/// Whether `t` is the text a segment shows in a summary of its message: a
/// text segment its text, a segment without data `[type]`, and any other
/// segment `[type,`, then the JSON members of its data in some order of keys,
/// then `]`.
pub open spec fn alt_of(s: MsgSegmentView, t: Seq<char>) -> bool {
    if s.ty == "text"@ {
        t == text_of(s.data, "text"@)
    } else if s.data.len() == 0 {
        t == seq!['['] + s.ty + seq![']']
    } else {
        exists|p: Seq<(Seq<char>, ValueView)>| #[trigger] lists_map(p, data_map(s.data)) && t == seq!['['] + s.ty + seq![','] + json_members(p) + seq![']']
    }
}

/// The text a segment shows in the summary of its message: its data as JSON
/// without the braces, for a segment that is not text and has data.  With
/// two or more keys, their order is that of the hash map of `walle_core`.
pub fn segment_alt(s: &MsgSegment) -> (r: String)
    ensures
        alt_of(s@, r@),
        alt_known(s@) matches Some(t) ==> r@ == t,
{
    let ty = str_to_chars(s.ty.as_str());
    let text = str_to_chars("text");
    if vec_chars_eq(&ty, &text) {
        return text_value(&s.data, "text");
    }
    let mut r = String::new();
    push_char(&mut r, '[');
    push_chars(&mut r, &ty);
    if s.data.len() == 0 {
        push_char(&mut r, ']');
        assert(r@ =~= seq!['['] + s.ty@ + seq![']']);
        return r;
    }
    push_char(&mut r, ',');
    let ghost head = r@;
    proof {
        assert(head =~= seq!['['] + s.ty@ + seq![',']);
    }
    match data_json(&s.data) {
        Some(j) => {
            let jc = str_to_chars(j.as_str());
            let ghost p = choose|p: Seq<(Seq<char>, ValueView)>| #[trigger] lists_map(p, data_map(s@.data)) && jc@ == seq!['{'] + json_members(p) + seq!['}'];
            let ghost members = json_members(p);
            proof {
                assert(jc@.len() == members.len() + 2);
                assert(jc@.subrange(1, jc@.len() - 1) =~= members);
            }
            let n: usize = jc.len();
            let mut i: usize = 1;
            assert(r@ =~= head + jc@.subrange(1, 1));
            while i + 1 < n
                invariant
                    n == jc@.len(),
                    1 <= i <= jc@.len() - 1,
                    jc@.len() >= 2,
                    r@ == head + jc@.subrange(1, i as int),
                decreases n - i,
            {
                push_char(&mut r, jc[i]);
                assert(jc@.subrange(1, i + 1) =~= jc@.subrange(1, i as int).push(jc@[i as int]));
                i = i + 1;
            }
            push_char(&mut r, ']');
            proof {
                assert(r@ =~= seq!['['] + s.ty@ + seq![','] + members + seq![']']);
                if s.data@.len() == 1 {
                    lemma_single_listing(s@.data, p);
                    assert(members == json_member(s@.data[0]));
                    assert(r@ =~= seq!['['] + s.ty@ + seq![','] + json_str(s@.data[0].0) + seq![':']
                        + json_value(s@.data[0].1) + seq![']']);
                }
            }
            r
        },
        None => r,
    }
}

/// The texts `ts`, one after another.
pub open spec fn concat_texts(ts: Seq<Seq<char>>) -> Seq<char>
    decreases ts.len(),
{
    if ts.len() == 0 {
        Seq::empty()
    } else {
        concat_texts(ts.drop_last()) + ts.last()
    }
}

/// Whether `alt` is a summary of the segments `segs`: for each segment a text
/// it shows, one after another.
pub open spec fn alt_summary(segs: Seq<MsgSegmentView>, alt: Seq<char>) -> bool {
    exists|ts: Seq<Seq<char>>| #[trigger] concat_texts(ts) == alt && ts.len() == segs.len() && forall|i: int| 0 <= i < segs.len() ==> alt_of(segs[i], #[trigger] ts[i])
}

/// The summary of a message: the texts of its segments, one after another.
pub fn alt_message(segments: &Vec<MsgSegment>) -> (r: String)
    ensures
        alt_summary(segments_view(segments@), r@),
        (forall|i: int| 0 <= i < segments@.len() ==> alt_known(#[trigger] segments@[i]@) is Some)
            ==> r@ == known_alts(segments_view(segments@)),
{
    let mut r = String::new();
    let mut i: usize = 0;
    let ghost mut ts: Seq<Seq<char>> = Seq::empty();
    while i < segments.len()
        invariant
            i <= segments@.len(),
            ts.len() == i,
            r@ == concat_texts(ts),
            forall|k: int| 0 <= k < i ==> alt_of(segments@[k]@, #[trigger] ts[k]),
            (forall|k: int| 0 <= k < segments@.len() ==> alt_known(#[trigger] segments@[k]@) is Some)
                ==> r@ == known_alts(segments_view(segments@).take(i as int)),
        decreases segments.len() - i,
    {
        let a = segment_alt(&segments[i]);
        let ac = str_to_chars(a.as_str());
        push_chars(&mut r, &ac);
        proof {
            let sv = segments_view(segments@);
            assert(sv.take(i + 1).drop_last() =~= sv.take(i as int));
            assert(sv.take(i + 1).last() == segments@[i as int]@);
            assert(ts.push(a@).drop_last() =~= ts);
            ts = ts.push(a@);
        }
        i = i + 1;
    }
    proof {
        assert(segments_view(segments@).take(i as int) =~= segments_view(segments@));
        assert(forall|k: int| 0 <= k < segments@.len() ==> segments_view(segments@)[k] == segments@[k]@);
        assert(concat_texts(ts) == r@);
    }
    r
}

/// The summary of segments whose texts are all known.
pub open spec fn known_alts(v: Seq<MsgSegmentView>) -> Seq<char>
    decreases v.len(),
{
    if v.len() == 0 {
        Seq::empty()
    } else {
        known_alts(v.drop_last()) + alt_known(v.last()).unwrap()
    }
}

} // verus!
