use walle_q::model::{Face, Image, Xml};
use walle_q::segment::{msg_chain2msg_seg_vec, MessageChain, RQElem, Value};
use walle_q::send::{
    check_sendable, image_source, msg_seg_vec2msg_chain, segment_error, send_target, target_builder, url_fetch_error,
    voice_source, ChainElem, ForwardMessage, ImageSource, MsgChainBuilder, Node, RQSendItem, RQSends, SegStep,
    SegmentError, SendTarget, StoredMessage, StoredVoice, WQSegment,
};

fn text(s: &str) -> WQSegment {
    WQSegment::Text { text: s.to_string() }
}

#[test]
fn text_goes_straight_in() {
    let mut b = MsgChainBuilder::group_chain_builder(1);
    assert!(matches!(b.push_seg(text("a")), SegStep::Pushed));
    match b.build().unwrap() {
        RQSendItem::Chain(c) => {
            assert_eq!(c.len(), 1);
            assert!(matches!(&c[0], ChainElem::Text(t) if t == "a"));
        },
        _ => panic!("wrong item"),
    }
}

#[test]
fn mention_in_group_asks_for_the_nickname() {
    let mut b = MsgChainBuilder::group_chain_builder(1);
    match b.push_seg(WQSegment::Mention { user_id: "42".to_string() }) {
        SegStep::MemberName { user_id } => assert_eq!(user_id, 42),
        _ => panic!("wrong step"),
    }
    b.push_mention(42, Some("Alice".to_string()));
    b.push_mention(43, None);
    match b.build().unwrap() {
        RQSendItem::Chain(c) => {
            assert!(matches!(&c[0], ChainElem::At { target: 42, display } if display == "@Alice"));
            assert!(matches!(&c[1], ChainElem::At { target: 43, display } if display == "@43"));
        },
        _ => panic!("wrong item"),
    }
}

#[test]
fn mention_in_private_shows_the_number() {
    let mut b = MsgChainBuilder::private_chain_builder(1);
    assert!(matches!(b.push_seg(WQSegment::Mention { user_id: "7".to_string() }), SegStep::Pushed));
    assert!(matches!(&b.results.chain[0], ChainElem::At { target: 7, display } if display == "@7"));
}

#[test]
fn bad_mention_fails() {
    let mut b = MsgChainBuilder::private_chain_builder(1);
    match b.push_seg(WQSegment::Mention { user_id: "x".to_string() }) {
        SegStep::Failed(e) => assert_eq!(e.message, "无效的动作请求参数:user_id should be int"),
        _ => panic!("wrong step"),
    }
    assert!(b.results.chain.is_empty());
}

#[test]
fn mention_all_and_xml_and_face() {
    let mut b = MsgChainBuilder::group_chain_builder(1);
    b.push_seg(WQSegment::MentionAll);
    b.push_seg(WQSegment::Xml(Xml { service_id: 35, data: "<x/>".to_string() }));
    b.push_seg(WQSegment::Face(Face { id: Some(14), file: None }));
    assert!(matches!(&b.results.chain[0], ChainElem::At { target: 0, display } if display == "all"));
    assert!(matches!(&b.results.chain[1], ChainElem::RichMsg { service_id: 35, .. }));
    assert!(matches!(&b.results.chain[2], ChainElem::Face(14)));
    match b.push_seg(WQSegment::Face(Face { id: None, file: Some("微笑".to_string()) })) {
        SegStep::FaceName { name } => assert_eq!(name, "微笑"),
        _ => panic!("wrong step"),
    }
    assert!(b.push_named_face(None).is_err());
    match b.push_seg(WQSegment::Face(Face { id: None, file: None })) {
        SegStep::Failed(e) => assert_eq!(e.message, "无效的动作请求参数:face"),
        _ => panic!("wrong step"),
    }
}

#[test]
fn reply_goes_first_and_lone_reply_gets_a_space() {
    let mut b = MsgChainBuilder::group_chain_builder(1);
    assert!(matches!(b.push_seg(WQSegment::Reply { message_id: "m".to_string() }), SegStep::StoredMessage { .. }));
    let e = b.push_reply("m", None).unwrap_err();
    assert_eq!((e.retcode, e.message.as_str()), (35001, "消息不存在:m"));
    let stored = StoredMessage { seqs: vec![5, 6], user_id: "99".to_string(), time: 100, alt_message: "old".to_string() };
    b.push_reply("m", Some(stored)).unwrap();
    assert!(b.reply);
    match b.build().unwrap() {
        RQSendItem::Chain(c) => {
            assert_eq!(c.len(), 2);
            assert!(matches!(&c[0], ChainElem::Reply { reply_seq: 5, sender: 99, time: 100, text } if text == "old"));
            assert!(matches!(&c[1], ChainElem::Text(t) if t == " "));
        },
        _ => panic!("wrong item"),
    }
}

#[test]
fn reply_with_text_gets_no_space() {
    let mut b = MsgChainBuilder::group_chain_builder(1);
    b.push_seg(text("hi"));
    let stored = StoredMessage { seqs: vec![1], user_id: "2".to_string(), time: 3, alt_message: String::new() };
    b.push_reply("m", Some(stored)).unwrap();
    match b.build().unwrap() {
        RQSendItem::Chain(c) => {
            assert_eq!(c.len(), 2);
            assert!(matches!(&c[0], ChainElem::Reply { .. }));
        },
        _ => panic!("wrong item"),
    }
}

#[test]
fn image_and_voice_need_hex_file_ids() {
    let mut b = MsgChainBuilder::group_chain_builder(1);
    let img = Image { file_id: "zz".to_string(), url: None, flash: None };
    match b.push_seg(WQSegment::Image { image: img, bytes: None }) {
        SegStep::Failed(e) => assert_eq!(e.message, "无效的动作请求参数:file_id"),
        _ => panic!("wrong step"),
    }
    let img = Image { file_id: "0a0b".to_string(), url: Some("u".to_string()), flash: Some(true) };
    match b.push_seg(WQSegment::Image { image: img, bytes: None }) {
        SegStep::Image { key, flash, .. } => {
            assert_eq!(key, vec![10, 11]);
            assert!(flash);
        },
        _ => panic!("wrong step"),
    }
    match b.push_seg(WQSegment::Voice { file_id: "ff".to_string() }) {
        SegStep::Voice { key, .. } => assert_eq!(key, vec![255]),
        _ => panic!("wrong step"),
    }
    let e = b.push_image(None, false).unwrap_err();
    assert_eq!(e.message, "机器人平台错误:upload group image failed");
    b.push_image(Some(3), true).unwrap();
    assert!(matches!(&b.results.chain[0], ChainElem::Image { upload: 3, flash: true }));
}

#[test]
fn image_sources_in_order() {
    assert!(matches!(image_source(true, "f", Some("u".to_string()), None), ImageSource::Stored));
    assert!(matches!(image_source(false, "f", Some("u".to_string()), Some(vec![1])), ImageSource::Url(u) if u == "u"));
    assert!(matches!(image_source(false, "f", None, Some(vec![1])), ImageSource::Bytes(b) if b == vec![1]));
    match image_source(false, "f", None, None) {
        ImageSource::Missing(e) => assert_eq!((e.retcode, e.message.as_str()), (32005, "文件不存在:f")),
        _ => panic!("wrong source"),
    }
    assert_eq!(url_fetch_error("timeout").message, "无效的动作请求参数:url:timeout");
    assert_eq!(voice_source(Some(StoredVoice::Local), "v").unwrap(), StoredVoice::Local);
    assert_eq!(voice_source(None, "v").unwrap_err().message, "文件不存在:v");
}

#[test]
fn node_builds_a_forward() {
    let mut b = MsgChainBuilder::group_chain_builder(1);
    let node = Node { user_id: "5".to_string(), time: 9, user_name: "n".to_string(), message: vec![text("in")] };
    let (sender_id, sender_name, time, message) = match b.push_seg(WQSegment::Node(node)) {
        SegStep::Node { sender_id, sender_name, time, message } => (sender_id, sender_name, time, message),
        _ => panic!("wrong step"),
    };
    let mut sub = b.sub_builder();
    for s in message {
        sub.push_seg(s);
    }
    b.push_node(sender_id, sender_name, time, sub.build().unwrap());
    b.push_node(6, "v".to_string(), 1, RQSendItem::Voice(2));
    match b.build().unwrap() {
        RQSendItem::Forward(f) => {
            assert_eq!(f.len(), 2);
            assert!(matches!(&f[0], ForwardMessage::Message { sender_id: 5, time: 9, elements, .. } if elements.len() == 1));
            assert!(matches!(&f[1], ForwardMessage::Message { elements, .. }
                if matches!(&elements[0], ChainElem::Text(t) if t == "[语音]")));
        },
        _ => panic!("wrong item"),
    }
    let mut b = MsgChainBuilder::group_chain_builder(1);
    let node = Node { user_id: "x".to_string(), time: 0, user_name: String::new(), message: vec![] };
    match b.push_seg(WQSegment::Node(node)) {
        SegStep::Failed(e) => assert_eq!((e.retcode, e.message.as_str()), (10006, "无效的消息段参数:user_id")),
        _ => panic!("wrong step"),
    }
}

#[test]
fn what_is_sent_in_order_of_priority() {
    let s = RQSends { chain: vec![], forward: vec![], voice: Some(4) };
    assert!(matches!(RQSendItem::try_from(s), Ok(RQSendItem::Voice(4))));
    let s = RQSends { chain: vec![], forward: vec![], voice: None };
    let e = RQSendItem::try_from(s).unwrap_err();
    assert_eq!((e.retcode, e.message.as_str()), (10003, "消息为空"));
    let s = RQSends { chain: vec![ChainElem::Face(1)], forward: vec![], voice: Some(4) };
    assert!(matches!(RQSendItem::try_from(s), Ok(RQSendItem::Chain(_))));
}

#[test]
fn send_targets() {
    assert_eq!(send_target("group", &Some("12".to_string()), &None).unwrap(), SendTarget::Group { group_code: 12 });
    assert_eq!(
        send_target("group_temp", &Some("1".to_string()), &Some("2".to_string())).unwrap(),
        SendTarget::GroupTemp { group_code: 1, user: 2 }
    );
    assert_eq!(send_target("private", &None, &Some("3".to_string())).unwrap(), SendTarget::Private { user: 3 });
    assert_eq!(send_target("group", &None, &None).unwrap_err().message, "无效的动作请求参数:group_id");
    assert_eq!(send_target("group_temp", &Some("1".to_string()), &Some("a".to_string())).unwrap_err().message, "无效的动作请求参数:user_id");
    let e = send_target("channel", &None, &None).unwrap_err();
    assert_eq!((e.retcode, e.message.as_str()), (10004, "不支持的动作请求参数:channel"));
    let b = target_builder(SendTarget::GroupTemp { group_code: 1, user: 2 });
    assert_eq!((b.target, b.group), (2, false));
}

#[test]
fn sendable_items() {
    let t = SendTarget::GroupTemp { group_code: 1, user: 2 };
    assert_eq!(check_sendable(t, &RQSendItem::Voice(1)).unwrap_err().message, "不支持的动作请求参数:voice");
    assert_eq!(check_sendable(t, &RQSendItem::Forward(vec![])).unwrap_err().message, "不支持的动作请求参数:forward");
    let p = SendTarget::Private { user: 2 };
    let e = check_sendable(p, &RQSendItem::Forward(vec![])).unwrap_err();
    assert_eq!((e.retcode, e.message.as_str()), (10005, "不支持的消息段类型:forward"));
    assert!(check_sendable(p, &RQSendItem::Voice(1)).is_ok());
    assert!(check_sendable(SendTarget::Group { group_code: 1 }, &RQSendItem::Voice(1)).is_ok());
}

#[test]
fn segment_errors() {
    let e = segment_error(&SegmentError::DeclareNotMatch("foo".to_string()));
    assert_eq!((e.retcode, e.message.as_str()), (10002, "不支持的动作:foo"));
    let e = segment_error(&SegmentError::MapMissedKey("text".to_string()));
    assert_eq!((e.retcode, e.message.as_str()), (10006, "无效的消息段参数:text"));
}

#[test]
fn plain_chain_from_segments() {
    let c = msg_seg_vec2msg_chain(vec![
        text("a"),
        WQSegment::Mention { user_id: "bad".to_string() },
        WQSegment::Mention { user_id: "8".to_string() },
        WQSegment::MentionAll,
        WQSegment::Voice { file_id: String::new() },
    ]);
    assert_eq!(c.len(), 4);
    assert!(matches!(&c[1], ChainElem::At { target: 8, display } if display == "8"));
    assert!(matches!(&c[3], ChainElem::Text(t) if t == "unsupported MessageSegment"));
}

#[test]
fn uploaded_content_or_its_error() {
    let mut b = MsgChainBuilder::private_chain_builder(1);
    let e = b.push_image_data(Err("too big".to_string()), false).unwrap_err();
    assert_eq!((e.retcode, e.message.as_str()), (34001, "机器人平台错误:too big"));
    assert!(b.results.chain.is_empty());
    b.push_image_data(Ok(0), false).unwrap();
    assert_eq!(b.results.chain.len(), 1);
    assert_eq!(b.push_image(None, false).unwrap_err().message, "机器人平台错误:upload friend image failed");
}

#[test]
fn plain_segments_come_back_after_a_round_trip() {
    let sent = vec![text("hi "), WQSegment::Mention { user_id: "42".to_string() }, WQSegment::MentionAll];
    let chain = msg_seg_vec2msg_chain(sent);
    let elems = chain
        .into_iter()
        .map(|e| match e {
            ChainElem::Text(t) => RQElem::Text { content: t },
            ChainElem::At { target, display } => RQElem::At { target, display },
            _ => RQElem::Other,
        })
        .collect();
    let back = msg_chain2msg_seg_vec(MessageChain { reply: None, elems });
    assert_eq!(back.len(), 3);
    assert_eq!(back[0].ty, "text");
    assert!(matches!(&back[0].data[..], [(k, Value::Str(v))] if k == "text" && v == "hi "));
    assert_eq!(back[1].ty, "mention");
    assert!(matches!(&back[1].data[..], [(k, Value::Str(v))] if k == "user_id" && v == "42"));
    assert_eq!(back[2].ty, "mention_all");
    assert!(back[2].data.is_empty());
}
