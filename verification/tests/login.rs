use walle_q::login::device_path;
use walle_q::login::{
    handle_login_resp, login_method, login_resp_to_resp, qrcode_image, qrcode_login_reply, qrcode_step, token_login_reply,
    token_path, LoginMethod, LoginResponse, LoginStep, QRCodeState, QrStep,
};

#[test]
fn token_lives_in_the_client_directory() {
    assert_eq!(token_path("12345"), "client/12345-session.token");
}

#[test]
fn password_login_needs_a_number_and_a_password() {
    assert!(matches!(login_method("123", Some("pw".into())), LoginMethod::Password { uin: 123, password } if password == "pw"));
    assert!(matches!(login_method("abc", Some("pw".into())), LoginMethod::QrCode));
    assert!(matches!(login_method("123", None), LoginMethod::QrCode));
}

#[test]
fn login_answers_at_the_terminal() {
    assert!(matches!(handle_login_resp(LoginResponse::Success), LoginStep::Done));
    assert!(matches!(handle_login_resp(LoginResponse::DeviceLockLogin), LoginStep::DeviceLockLogin));
    assert!(matches!(handle_login_resp(LoginResponse::NeedCaptcha { verify_url: Some("u".into()) }), LoginStep::Captcha { url } if url == "u"));
    assert!(matches!(handle_login_resp(LoginResponse::NeedCaptcha { verify_url: None }), LoginStep::Failed(r) if r == "NeedCaptcha without url"));
    assert!(matches!(handle_login_resp(LoginResponse::AccountFrozen), LoginStep::Failed(r) if r == "账号被冻结"));
    assert!(matches!(handle_login_resp(LoginResponse::DeviceLocked { verify_url: None }), LoginStep::Failed(r) if r == "password login failure"));
}

#[test]
fn qrcode_states() {
    assert!(matches!(qrcode_step(&QRCodeState::WaitingForScan), QrStep::Wait));
    assert!(matches!(qrcode_step(&QRCodeState::Confirmed), QrStep::Login));
    assert!(matches!(qrcode_step(&QRCodeState::Timeout), QrStep::Failed(r) if r == "二维码超时"));
    assert!(matches!(qrcode_step(&QRCodeState::Canceled), QrStep::Failed(r) if r == "二维码已取消"));
    assert_eq!(qrcode_image(QRCodeState::ImageFetch { image_data: vec![1] }).unwrap(), vec![1]);
    assert_eq!(qrcode_image(QRCodeState::Timeout).unwrap_err(), "二维码获取失败");
}

#[test]
fn login_replies_through_onebot() {
    let r = login_resp_to_resp("1".into(), LoginResponse::Success);
    assert!(r.error.is_none());
    assert_eq!(r.data.unwrap().user_id, "1");
    let r = login_resp_to_resp("1".into(), LoginResponse::DeviceLocked { verify_url: Some("v".into()) });
    assert_eq!(r.error.unwrap().message, "登录失败:devicd_locked");
    assert_eq!(r.data.unwrap().url, Some("v".into()));
    let r = login_resp_to_resp("1".into(), LoginResponse::TooManySMSRequest);
    let e = r.error.unwrap();
    assert_eq!((e.retcode, e.message.as_str()), (34004, "登录失败:短信验证码请求过于频繁"));
    assert!(r.data.is_none());
    let r = qrcode_login_reply("77", QRCodeState::ImageFetch { image_data: vec![5] });
    let d = r.data.unwrap();
    assert_eq!((d.user_id.as_str(), d.qrcode), ("77", Some(vec![5])));
    let r = qrcode_login_reply("77", QRCodeState::Canceled);
    assert_eq!(r.error.unwrap().message, "登录失败:二维码获取失败");
    assert_eq!(token_login_reply("9".into()).data.unwrap().user_id, "9");
}

#[test]
fn device_lives_in_the_client_directory() {
    assert_eq!(device_path("123", 5), "client/123-5-device.json");
}
