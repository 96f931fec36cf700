use walle_q::multi::{check_super_token, logout_result, no_pending_login, select_bot};

#[test]
fn action_goes_to_its_bot() {
    let ids = vec!["1".to_string(), "2".to_string()];
    assert_eq!(select_bot("2", &ids).unwrap(), 1);
    let e = select_bot("3", &ids).unwrap_err();
    assert_eq!((e.retcode, e.message.as_str()), (10003, "无效的动作请求参数:self_id required"));
}

#[test]
fn a_single_bot_takes_every_action() {
    let ids = vec!["1".to_string()];
    assert_eq!(select_bot("", &ids).unwrap(), 0);
    assert!(select_bot("1", &vec![]).is_err());
}

#[test]
fn super_token_checks() {
    assert!(check_super_token(&Some("t".into()), "t").is_ok());
    assert_eq!(check_super_token(&Some("t".into()), "u").unwrap_err().message, "无效的动作请求参数:super_token not match");
    assert_eq!(check_super_token(&None, "t").unwrap_err().message, "无效的动作请求参数:super_token not set");
    assert!(logout_result(&Some("t".into()), "t", true).is_ok());
    let e = logout_result(&Some("t".into()), "t", false).unwrap_err();
    assert_eq!((e.retcode, e.message.as_str()), (20002, "动作处理器运行时抛出异常:bot not found"));
    assert_eq!(no_pending_login().message, "客户端未初始化:please call login first");
}
