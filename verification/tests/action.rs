use walle_q::action::{group_infos, join_group_requests, new_friend_requests, user_infos};
use walle_q::qevent::{JoinGroupRequest, NewFriendRequest};
use walle_q::action::{
    action_error, client_call, found_group, get_supported_actions, get_version, latest_events_limit, parse_param,
    user_info, ActionError, ClientAction, ClientCall,
};

#[test]
fn parameters_must_be_numbers() {
    assert_eq!(parse_param("12", "group_id").unwrap(), 12);
    assert_eq!(parse_param("1x", "group_id").unwrap_err().message, "无效的动作请求参数:group_id");
}

#[test]
fn group_is_read_before_user() {
    let r = client_call(ClientAction::KickGroupMember { group_id: "g".into(), user_id: "u".into() }, 0);
    assert_eq!(r.unwrap_err().message, "无效的动作请求参数:group_id");
    let r = client_call(ClientAction::KickGroupMember { group_id: "1".into(), user_id: "u".into() }, 0);
    assert_eq!(r.unwrap_err().message, "无效的动作请求参数:user_id");
    match client_call(ClientAction::KickGroupMember { group_id: "1".into(), user_id: "2".into() }, 0).unwrap() {
        ClientCall::GroupKick { group_code, members, message, block } => {
            assert_eq!((group_code, members, message.as_str(), block), (1, vec![2], "", false));
        },
        _ => panic!("wrong call"),
    }
}

#[test]
fn unban_is_a_zero_mute_and_unset_clears_admin() {
    assert!(matches!(
        client_call(ClientAction::UnbanGroupMember { group_id: "1".into(), user_id: "2".into() }, 0),
        Ok(ClientCall::GroupMute { group_code: 1, uin: 2, duration_secs: 0 })
    ));
    assert!(matches!(
        client_call(ClientAction::BanGroupMember { group_id: "1".into(), user_id: "2".into(), duration: 60 }, 0),
        Ok(ClientCall::GroupMute { duration_secs: 60, .. })
    ));
    assert!(matches!(
        client_call(ClientAction::UnsetGroupAdmin { group_id: "1".into(), user_id: "2".into() }, 0),
        Ok(ClientCall::GroupSetAdmin { flag: false, .. })
    ));
    assert!(matches!(
        client_call(ClientAction::SetGroupAdmin { group_id: "1".into(), user_id: "2".into() }, 0),
        Ok(ClientCall::GroupSetAdmin { flag: true, .. })
    ));
}

#[test]
fn delete_message_recalls_by_kind() {
    assert!(matches!(
        client_call(ClientAction::DeleteMessage { message_id: "5 1 2 3".into() }, 0),
        Ok(ClientCall::RecallFriendMessage { uin: 5, time: 3, .. })
    ));
    assert!(matches!(
        client_call(ClientAction::DeleteMessage { message_id: "5 1-2 3".into() }, 0),
        Ok(ClientCall::RecallGroupMessage { group_code: 5, .. })
    ));
    assert!(client_call(ClientAction::DeleteMessage { message_id: "5".into() }, 0).is_err());
}

#[test]
fn requests_are_answered_with_defaults() {
    match client_call(
        ClientAction::SetJoinGroup {
            request_id: 1,
            user_id: "2".into(),
            group_id: "3".into(),
            accept: true,
            block: None,
            message: None,
        },
        0,
    )
    .unwrap()
    {
        ClientCall::SolveGroupSystemMessage { msg_seq, req_uin, group_code, is_invite, block, reason, .. } => {
            assert_eq!((msg_seq, req_uin, group_code, is_invite, block, reason.as_str()), (1, 2, 3, false, false, ""));
        },
        _ => panic!("wrong call"),
    }
    match client_call(ClientAction::SetGroupInvited { request_id: 4, group_id: "5".into(), accept: false }, 99).unwrap() {
        ClientCall::SolveGroupSystemMessage { req_uin, is_invite, accept, .. } => {
            assert_eq!((req_uin, is_invite, accept), (99, true, false));
        },
        _ => panic!("wrong call"),
    }
}

#[test]
fn fixed_answers() {
    assert_eq!(latest_events_limit(0), 10);
    assert_eq!(latest_events_limit(-3), 10);
    assert_eq!(latest_events_limit(4), 4);
    let a = get_supported_actions();
    assert_eq!(a.len(), 26);
    assert_eq!(a[0], "get_latest_events");
    assert_eq!(a[25], "get_new_friend_request");
    let v = get_version("0.1.0");
    assert_eq!((v.implt.as_str(), v.platform.as_str(), v.version.as_str(), v.onebot_version.as_str()), ("walle-q", "qq", "0.1.0", "12"));
}

#[test]
fn lookups_and_unreadable_actions() {
    let g = found_group("5", Some((5, "n".into()))).unwrap();
    assert_eq!((g.group_id.as_str(), g.group_name.as_str()), ("5", "n"));
    let e = found_group("5", None).unwrap_err();
    assert_eq!((e.retcode, e.message.as_str()), (35003, "群不存在:5"));
    let u = user_info(-1, "me".into());
    assert_eq!((u.user_id.as_str(), u.nickname.as_str()), ("-1", "me"));
    let e = action_error(&ActionError::MapMissedKey("group_id".into()));
    assert_eq!((e.retcode, e.message.as_str()), (10003, "无效的动作请求参数:missing key group_id"));
    let e = action_error(&ActionError::DeclareNotMatch("fly".into()));
    assert_eq!((e.retcode, e.message.as_str()), (10002, "不支持的动作:fly"));
}

#[test]
fn lists_from_the_client() {
    let u = user_infos(vec![(1, "a".into()), (2, "b".into())]);
    assert_eq!((u[1].user_id.as_str(), u[1].nickname.as_str()), ("2", "b"));
    let g = group_infos(vec![(3, "g".into())]);
    assert_eq!(g[0].group_id, "3");
    let n = new_friend_requests(vec![NewFriendRequest { msg_seq: 4, message: "m".into(), req_uin: 5, req_nick: "n".into() }]);
    assert_eq!((n[0].request_id, n[0].user_id.as_str()), (4, "5"));
    let j = join_group_requests(vec![JoinGroupRequest {
        msg_seq: 1,
        msg_time: 2,
        message: String::new(),
        req_uin: 3,
        req_nick: String::new(),
        group_code: 4,
        group_name: String::new(),
        suspicious: false,
        invitor_uin: None,
        invitor_nick: Some("x".into()),
    }]);
    assert_eq!((j[0].group_id.as_str(), j[0].invitor_id.clone(), j[0].invitor_name.clone()), ("4", None, Some("x".to_string())));
}
