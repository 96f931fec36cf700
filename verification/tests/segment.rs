use walle_q::segment::{
    alt_message, msg_chain2msg_seg_vec, rq_elem2msg_seg, segment_alt, stores_image, FingerGuessing,
    ImageElem, MessageChain, MsgSegment, RQElem, ReplyRef, Value,
};

fn text_seg(s: &str) -> MsgSegment {
    MsgSegment { ty: "text".to_string(), data: vec![("text".to_string(), Value::Str(s.to_string()))] }
}

fn str_of(v: &Value) -> &str {
    match v {
        Value::Str(s) => s,
        _ => panic!("not a string"),
    }
}

#[test]
fn text_becomes_text_segment() {
    let s = rq_elem2msg_seg(RQElem::Text { content: "hi".to_string() }).unwrap();
    assert_eq!(s.ty, "text");
    assert_eq!(s.data.len(), 1);
    assert_eq!(s.data[0].0, "text");
    assert_eq!(str_of(&s.data[0].1), "hi");
}

#[test]
fn mention_of_zero_is_mention_all() {
    let s = rq_elem2msg_seg(RQElem::At { target: 0, display: "@all".to_string() }).unwrap();
    assert_eq!(s.ty, "mention_all");
    assert!(s.data.is_empty());
    let s = rq_elem2msg_seg(RQElem::At { target: 12345, display: "@x".to_string() }).unwrap();
    assert_eq!(s.ty, "mention");
    assert_eq!(str_of(&s.data[0].1), "12345");
}

#[test]
fn face_dice_and_rps() {
    let s = rq_elem2msg_seg(RQElem::Face { index: 14, name: "微笑".to_string() }).unwrap();
    assert_eq!(s.ty, "face");
    assert!(matches!(s.data[0].1, Value::Int(14)));
    assert_eq!(str_of(&s.data[1].1), "微笑");
    let s = rq_elem2msg_seg(RQElem::Dice { value: 6 }).unwrap();
    assert_eq!(s.ty, "dice");
    assert!(matches!(s.data[0].1, Value::Int(6)));
    let s = rq_elem2msg_seg(RQElem::FingerGuessing(FingerGuessing::Scissors)).unwrap();
    assert_eq!(s.ty, "rps");
    assert!(matches!(s.data[0].1, Value::Int(2)));
    let s = rq_elem2msg_seg(RQElem::MarketFace { name: "[贴图]".to_string() }).unwrap();
    assert_eq!(s.ty, "text");
    assert_eq!(str_of(&s.data[0].1), "[贴图]");
}

#[test]
fn images_carry_file_id_url_and_flash() {
    let img = ImageElem { md5: vec![0xab, 0xcd], size: 3, url: "http://x/y".to_string() };
    let s = rq_elem2msg_seg(RQElem::GroupImage(img)).unwrap();
    assert_eq!(s.ty, "image");
    assert_eq!(str_of(&s.data[0].1), "abcd00000003");
    assert_eq!(str_of(&s.data[1].1), "http://x/y");
    assert_eq!(s.data[2].0, "flash");
    assert!(matches!(s.data[2].1, Value::Bool(false)));
    let img = ImageElem { md5: vec![1], size: 0, url: String::new() };
    let s = rq_elem2msg_seg(RQElem::FriendImage(img)).unwrap();
    assert_eq!(s.data[2].0, "falsh");
    let img = ImageElem { md5: vec![1], size: 0, url: String::new() };
    let s = rq_elem2msg_seg(RQElem::FlashImage { group: false, image: img }).unwrap();
    assert!(matches!(s.data[2].1, Value::Bool(true)));
}

#[test]
fn video_and_unknown_elements_are_dropped() {
    assert!(rq_elem2msg_seg(RQElem::VideoFile).is_none());
    assert!(rq_elem2msg_seg(RQElem::Other).is_none());
}

#[test]
fn only_images_are_stored() {
    assert!(stores_image(&RQElem::GroupImage(ImageElem { md5: vec![], size: 0, url: String::new() })));
    assert!(!stores_image(&RQElem::Text { content: String::new() }));
}

#[test]
fn chain_with_reply_starts_with_reply_segment() {
    let chain = MessageChain {
        reply: Some(ReplyRef { reply_seq: 77, sender: 999 }),
        elems: vec![RQElem::Text { content: "a".to_string() }, RQElem::VideoFile, RQElem::Dice { value: 1 }],
    };
    let v = msg_chain2msg_seg_vec(chain);
    assert_eq!(v.len(), 3);
    assert_eq!(v[0].ty, "reply");
    assert_eq!(str_of(&v[0].data[0].1), "77");
    assert_eq!(str_of(&v[0].data[1].1), "999");
    assert_eq!(v[1].ty, "text");
    assert_eq!(v[2].ty, "dice");
}

#[test]
fn summary_of_texts_and_bare_segments() {
    let v = vec![
        text_seg("hello "),
        MsgSegment { ty: "mention_all".to_string(), data: vec![] },
        text_seg("!"),
    ];
    assert_eq!(alt_message(&v), "hello [mention_all]!");
}

#[test]
fn summary_of_segment_with_data_shows_its_json() {
    let s = MsgSegment { ty: "dice".to_string(), data: vec![("value".to_string(), Value::Int(3))] };
    assert_eq!(segment_alt(&s), "[dice,\"value\":3]");
}

#[test]
fn summary_escapes_strings_as_json() {
    let s = MsgSegment {
        ty: "mention".to_string(),
        data: vec![("user_id".to_string(), Value::Str("a\"b\\c\nd\te\u{1}f\u{8}\u{c}\r".to_string()))],
    };
    assert_eq!(
        segment_alt(&s),
        "[mention,\"user_id\":\"a\\\"b\\\\c\\nd\\te\\u0001f\\b\\f\\r\"]"
    );
}

#[test]
fn summary_of_flag_and_negative_number() {
    let f = MsgSegment { ty: "poke".to_string(), data: vec![("strong".to_string(), Value::Bool(false))] };
    assert_eq!(segment_alt(&f), "[poke,\"strong\":false]");
    let n = MsgSegment { ty: "face".to_string(), data: vec![("id".to_string(), Value::Int(-12))] };
    assert_eq!(segment_alt(&n), "[face,\"id\":-12]");
    let u = MsgSegment { ty: "x".to_string(), data: vec![("k\u{1f}".to_string(), Value::Str("你好".to_string()))] };
    assert_eq!(segment_alt(&u), "[x,\"k\\u001f\":\"你好\"]");
}

#[test]
fn summary_of_message_with_one_entry_segments() {
    let v = vec![
        text_seg("see "),
        MsgSegment { ty: "dice".to_string(), data: vec![("value".to_string(), Value::Int(6))] },
    ];
    assert_eq!(alt_message(&v), "see [dice,\"value\":6]");
}

#[test]
fn summary_of_two_entries_in_either_order() {
    let s = MsgSegment {
        ty: "face".to_string(),
        data: vec![("id".to_string(), Value::Int(1)), ("file".to_string(), Value::Str("a".to_string()))],
    };
    let r = segment_alt(&s);
    assert!(r == "[face,\"id\":1,\"file\":\"a\"]" || r == "[face,\"file\":\"a\",\"id\":1]", "{}", r);
}

#[test]
fn summary_keeps_the_last_value_of_a_key() {
    let t = MsgSegment {
        ty: "text".to_string(),
        data: vec![("text".to_string(), Value::Str("a".to_string())), ("text".to_string(), Value::Str("b".to_string()))],
    };
    assert_eq!(segment_alt(&t), "b");
    let n = MsgSegment {
        ty: "text".to_string(),
        data: vec![("text".to_string(), Value::Str("a".to_string())), ("text".to_string(), Value::Int(3))],
    };
    assert_eq!(segment_alt(&n), "");
    let x = MsgSegment {
        ty: "x".to_string(),
        data: vec![("k".to_string(), Value::Int(1)), ("k".to_string(), Value::Int(2))],
    };
    assert_eq!(segment_alt(&x), "[x,\"k\":2]");
}
