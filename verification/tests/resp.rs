use walle_q::resp::{bad_param, empty_message, make_error, permission_denied, rq_error};

#[test]
fn error_without_detail_is_the_kind_text() {
    let e = empty_message("");
    assert_eq!(e.retcode, 10003);
    assert_eq!(e.message, "消息为空");
}

#[test]
fn error_with_detail_adds_a_colon() {
    let e = bad_param("group_id");
    assert_eq!(e.retcode, 10003);
    assert_eq!(e.message, "无效的动作请求参数:group_id");
    let e = rq_error("timeout");
    assert_eq!((e.retcode, e.message.as_str()), (34001, "机器人平台错误:timeout"));
    let e = permission_denied("");
    assert_eq!((e.retcode, e.message.as_str()), (34002, "权限不足"));
}

#[test]
fn make_error_keeps_code() {
    let e = make_error(12345, "base", "d");
    assert_eq!(e.retcode, 12345);
    assert_eq!(e.message, "base:d");
}
