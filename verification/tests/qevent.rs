use walle_q::qevent::message_ids_available;
use walle_q::database::MessageId;
use walle_q::event::{DecreaseKind, DeleteKind, EventContent, FriendMessage, GroupAudioMessage, GroupMessage, Status};
use walle_q::infos::{GroupMemberPermission, Infos};
use walle_q::qevent::{
    qevent2event, DeleteFriend, GroupLeave, GroupMessageRecall, GroupMute, GroupRenamed, JoinGroupRequest,
    MemberPermissionChange, QEvent, SelfInvited,
};
use walle_q::segment::{MessageChain, RQElem};

const ME: i64 = 10000;

fn status() -> Status {
    Status { good: true, online: true }
}

#[test]
fn lost_connection_gives_no_event() {
    let mut i = Infos::new();
    assert!(qevent2event(QEvent::ClientDisconnect, &mut i, ME, status(), false).is_none());
}

#[test]
fn login_reports_status() {
    let mut i = Infos::new();
    let e = qevent2event(QEvent::Login(ME), &mut i, ME, Status { good: true, online: false }, false).unwrap();
    assert_eq!(e.time, None);
    match e.content {
        EventContent::StatusUpdate { status } => assert_eq!(status, Status { good: true, online: false }),
        _ => panic!("wrong event"),
    }
}

fn group_message() -> GroupMessage {
    GroupMessage {
        seqs: vec![31, 32],
        rands: vec![41],
        group_code: 555,
        group_name: "g".to_string(),
        group_card: "card".to_string(),
        from_uin: 777,
        time: 1600000000,
        elements: MessageChain { reply: None, elems: vec![RQElem::Text { content: "hey".to_string() }] },
    }
}

#[test]
fn group_message_without_database_gets_full_identifier() {
    let mut i = Infos::new();
    let e = qevent2event(QEvent::GroupMessage(group_message()), &mut i, ME, status(), false).unwrap();
    assert!(e.is_message());
    assert_eq!(e.message_id(), "555 31-32 41");
    assert_eq!(e.time, Some(1600000000));
    match e.content {
        EventContent::GroupMessage { message, group_id, names } => {
            assert_eq!(group_id, "555");
            assert_eq!(names.group_name, "g");
            assert_eq!(names.user_name, "card");
            assert_eq!(message.user_id, "777");
            assert_eq!(message.alt_message, "hey");
            assert_eq!(message.selft.user_id, "10000");
            assert_eq!(message.selft.platform, "qq");
            assert_eq!(message.message.len(), 1);
        },
        _ => panic!("wrong event"),
    }
}

#[test]
fn group_message_with_database_is_known_by_first_seq() {
    let mut i = Infos::new();
    let e = qevent2event(QEvent::GroupMessage(group_message()), &mut i, ME, status(), true).unwrap();
    assert_eq!(e.message_id(), "31");
}

#[test]
fn friend_message_identifier_has_time() {
    let mut i = Infos::new();
    let f = FriendMessage {
        seqs: vec![1],
        rands: vec![2],
        time: 3,
        from_uin: 4,
        from_nick: "n".to_string(),
        elements: MessageChain { reply: None, elems: vec![] },
    };
    let e = qevent2event(QEvent::FriendMessage(f), &mut i, ME, status(), false).unwrap();
    assert_eq!(e.message_id(), "4 1 2 3");
}

#[test]
fn voice_message_has_one_voice_segment() {
    let mut i = Infos::new();
    let g = GroupAudioMessage {
        seqs: vec![9],
        rands: vec![8],
        group_code: 1,
        group_name: String::new(),
        group_card: String::new(),
        from_uin: 2,
        time: 0,
        audio_md5: vec![0x12],
        audio_size: 1,
    };
    let e = qevent2event(QEvent::GroupAudioMessage(g), &mut i, ME, status(), true).unwrap();
    match e.content {
        EventContent::GroupMessage { message, .. } => {
            assert_eq!(message.message.len(), 1);
            assert_eq!(message.message[0].ty, "voice");
            assert_eq!(message.alt_message.chars().next(), Some('['));
        },
        _ => panic!("wrong event"),
    }
}

#[test]
fn leave_with_operator_is_kick() {
    let mut i = Infos::new();
    let e = qevent2event(
        QEvent::GroupLeave(GroupLeave { group_code: 1, member_uin: 2, operator_uin: Some(3) }),
        &mut i,
        ME,
        status(),
        false,
    )
    .unwrap();
    match e.content {
        EventContent::GroupMemberDecrease { operator_id, kind, .. } => {
            assert_eq!(operator_id, "3");
            assert!(matches!(kind, DecreaseKind::Kick(_)));
        },
        _ => panic!("wrong event"),
    }
    let e = qevent2event(
        QEvent::GroupLeave(GroupLeave { group_code: 1, member_uin: 2, operator_uin: None }),
        &mut i,
        ME,
        status(),
        false,
    )
    .unwrap();
    match e.content {
        EventContent::GroupMemberDecrease { operator_id, kind, .. } => {
            assert_eq!(operator_id, "2");
            assert!(matches!(kind, DecreaseKind::Leave(_)));
        },
        _ => panic!("wrong event"),
    }
}

#[test]
fn recall_by_author_or_other() {
    let mut i = Infos::new();
    let r = GroupMessageRecall { msg_seq: 5, group_code: 6, operator_uin: 7, author_uin: 7, time: 8 };
    let e = qevent2event(QEvent::GroupMessageRecall(r), &mut i, ME, status(), false).unwrap();
    assert_eq!(e.time, Some(8));
    assert!(matches!(e.content, EventContent::GroupMessageDelete { kind: DeleteKind::Recall(_), .. }));
    let r = GroupMessageRecall { msg_seq: 5, group_code: 6, operator_uin: 1, author_uin: 7, time: 8 };
    let e = qevent2event(QEvent::GroupMessageRecall(r), &mut i, ME, status(), false).unwrap();
    assert!(matches!(e.content, EventContent::GroupMessageDelete { kind: DeleteKind::Delete(_), .. }));
}

#[test]
fn mute_reports_seconds() {
    let mut i = Infos::new();
    let m = GroupMute { group_code: 1, operator_uin: 2, target_uin: 3, duration_secs: 600 };
    let e = qevent2event(QEvent::GroupMute(m), &mut i, ME, status(), false).unwrap();
    match e.content {
        EventContent::GroupMemberBan { detail, .. } => {
            assert_eq!(detail.duration, 600);
            assert_eq!(detail.user_id, "3");
        },
        _ => panic!("wrong event"),
    }
}

#[test]
fn own_role_change_moves_the_group() {
    let mut i = Infos::new();
    i.place_group(50, 50, "x".to_string(), None);
    let c = MemberPermissionChange { group_code: 50, member_uin: ME, new_permission: GroupMemberPermission::Administrator };
    let e = qevent2event(QEvent::MemberPermissionChange(c), &mut i, ME, status(), false).unwrap();
    assert!(matches!(e.content, EventContent::GroupAdminSet { .. }));
    assert!(i.admined_groups.contains_key(&50));
    assert!(!i.groups.contains_key(&50));
    let c = MemberPermissionChange { group_code: 50, member_uin: 1, new_permission: GroupMemberPermission::Member };
    let e = qevent2event(QEvent::MemberPermissionChange(c), &mut i, ME, status(), false).unwrap();
    assert!(matches!(e.content, EventContent::GroupAdminUnset { .. }));
    assert!(i.admined_groups.contains_key(&50));
}

#[test]
fn rename_and_friend_removal_update_infos() {
    let mut i = Infos::new();
    i.place_group(60, 60, "old".to_string(), None);
    i.add_friend(70, "f".to_string());
    let g = GroupRenamed { group_code: 60, operator_uin: 1, group_name: "new".to_string() };
    qevent2event(QEvent::GroupNameUpdate(g), &mut i, ME, status(), false).unwrap();
    assert_eq!(i.groups.get(&60).unwrap().group_name, "new");
    let e = qevent2event(QEvent::DeleteFriend(DeleteFriend { uin: 70 }), &mut i, ME, status(), false).unwrap();
    assert!(!i.friends.contains_key(&70));
    assert!(matches!(e.content, EventContent::FriendDecrease { .. }));
}

#[test]
fn requests_keep_their_details() {
    let mut i = Infos::new();
    let r = JoinGroupRequest {
        msg_seq: 11,
        msg_time: 12,
        message: "let me in".to_string(),
        req_uin: 13,
        req_nick: "nick".to_string(),
        group_code: 14,
        group_name: "gn".to_string(),
        suspicious: true,
        invitor_uin: Some(15),
        invitor_nick: None,
    };
    let e = qevent2event(QEvent::GroupRequest(r), &mut i, ME, status(), false).unwrap();
    assert_eq!(e.time, Some(12));
    match e.content {
        EventContent::JoinGroup { detail, .. } => {
            assert_eq!(detail.request_id, 11);
            assert_eq!(detail.invitor_id, Some("15".to_string()));
            assert_eq!(detail.invitor_name, None);
            assert!(detail.suspicious);
        },
        _ => panic!("wrong event"),
    }
    let s = SelfInvited {
        msg_seq: 21,
        msg_time: 22,
        invitor_uin: 23,
        invitor_nick: "inv".to_string(),
        group_code: 24,
        group_name: "g".to_string(),
    };
    let e = qevent2event(QEvent::SelfInvited(s), &mut i, ME, status(), false).unwrap();
    assert_eq!(e.time, Some(21));
}

#[test]
fn message_ids_need_a_sequence_number_with_a_database() {
    let mut m = group_message();
    m.seqs = vec![];
    let q = QEvent::GroupMessage(m);
    assert!(!message_ids_available(&q, true));
    assert!(message_ids_available(&q, false));
    assert!(message_ids_available(&QEvent::KickedOffline, true));
}

#[test]
fn event_type_names() {
    let mut i = Infos::new();
    let e = qevent2event(QEvent::GroupMessage(group_message()), &mut i, ME, status(), false).unwrap();
    assert_eq!((e.ty(), e.detail_type(), e.sub_type()), ("message", "group", ""));
    let r = GroupMessageRecall { msg_seq: 5, group_code: 6, operator_uin: 1, author_uin: 7, time: 8 };
    let e = qevent2event(QEvent::GroupMessageRecall(r), &mut i, ME, status(), false).unwrap();
    assert_eq!((e.ty(), e.detail_type(), e.sub_type()), ("notice", "group_message_delete", "delete"));
    let e = qevent2event(QEvent::MSFOffline, &mut i, ME, status(), false).unwrap();
    assert_eq!((e.ty(), e.detail_type()), ("meta", "status_update"));
}
