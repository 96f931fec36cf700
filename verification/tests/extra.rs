use walle_q::extra::{default_str, DeleteFriend, WQExtraAction, WQExtraNoticeContent, WQMEDetail, WQRequestContent};
use walle_q::model::{Join, WalleQ, QQ};

#[test]
fn type_names() {
    let d = WQMEDetail::GroupTemp { sub_type: String::new(), group_id: "1".into(), user_name: "u".into() };
    assert_eq!(d.detail_type(), "group_temp");
    let n = WQExtraNoticeContent::FriendPock { sub_type: String::new(), user_id: "1".into(), receiver_id: "2".into() };
    assert_eq!(n.detail_type(), "friend_pock");
    let r = WQRequestContent::NewFriend {
        sub_type: "s".into(),
        request_id: 1,
        user_id: "2".into(),
        user_name: "n".into(),
        message: "m".into(),
    };
    assert_eq!((r.event_type(), r.detail_type(), r.sub_type().as_str()), ("request", "new_friend", "s"));
    assert_eq!(WalleQ.impl_name(), "walle-q");
    assert_eq!(QQ.platform(), "qq");
    assert_eq!(Join {}.sub_type(), "join");
}

#[test]
fn extra_actions_name_their_bot() {
    assert_eq!(default_str(&None), "");
    assert_eq!(default_str(&Some("x".into())), "x");
    let a = WQExtraAction::DeleteFriend(DeleteFriend { user_id: "1".into(), self_id: Some("9".into()) });
    assert_eq!(a.self_id(), "9");
    let a = WQExtraAction::GetGroupInviteds { self_id: None };
    assert_eq!(a.self_id(), "");
}
