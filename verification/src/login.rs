//! Logging a bot in: which way to try, what to do with each answer the QQ
//! server gives, and what a login request made through OneBot is answered.
use vstd::prelude::*;
use crate::decimal::{int_chars, i64_to_string, parse_i64_spec, parse_i64_str};
use crate::resp::{RespError, is_error, login_failed};
use crate::segment::lit;
use crate::strutil::{push_char, push_chars, str_to_chars};

verus! {

/// Where the session token of bot `uin` is kept.
pub open spec fn token_path_spec(uin: Seq<char>) -> Seq<char> {
    "client/"@ + uin + "-session.token"@
}

/// Where the session token of bot `uin` is kept.
pub fn token_path(uin: &str) -> (s: String)
    ensures
        s@ == token_path_spec(uin@),
{
    let mut s = lit("client/");
    let u = str_to_chars(uin);
    push_chars(&mut s, &u);
    let tail = str_to_chars("-session.token");
    push_chars(&mut s, &tail);
    proof {
        assert(s@ =~= token_path_spec(uin@));
    }
    s
}

/// Where the device of bot `uin` for `protocol` is kept.
pub open spec fn device_path_spec(uin: Seq<char>, protocol: u8) -> Seq<char> {
    "client/"@ + uin + seq!['-'] + int_chars(protocol as int) + "-device.json"@
}

/// Where the device of bot `uin` for `protocol` is kept.
pub fn device_path(uin: &str, protocol: u8) -> (s: String)
    ensures
        s@ == device_path_spec(uin@, protocol),
{
    let mut s = lit("client/");
    let u = str_to_chars(uin);
    push_chars(&mut s, &u);
    push_char(&mut s, '-');
    let p = i64_to_string(protocol as i64);
    let pc = str_to_chars(p.as_str());
    push_chars(&mut s, &pc);
    let tail = str_to_chars("-device.json");
    push_chars(&mut s, &tail);
    proof {
        assert(s@ =~= device_path_spec(uin@, protocol));
    }
    s
}

/// How to log in when no session token could be used.
#[derive(Debug)]
pub enum LoginMethod {
    /// With the password of this account.
    Password { uin: i64, password: String },
    /// By scanning a QR code.
    QrCode,
}

/// How to log in without a token: with the password when the account is a
/// number and a password is given, else by QR code.
pub fn login_method(uin: &str, password: Option<String>) -> (m: LoginMethod)
    ensures
        match (parse_i64_spec(uin@), password) {
            (Some(u), Some(p)) => m == (LoginMethod::Password { uin: u, password: p }),
            _ => m is QrCode,
        },
{
    match (parse_i64_str(uin), password) {
        (Some(u), Some(p)) => LoginMethod::Password { uin: u, password: p },
        _ => LoginMethod::QrCode,
    }
}

/// What the server answered to a login.
#[derive(Debug)]
pub enum LoginResponse {
    Success,
    DeviceLocked { verify_url: Option<String> },
    DeviceLockLogin,
    AccountFrozen,
    NeedCaptcha { verify_url: Option<String> },
    TooManySMSRequest,
    UnknownStatus,
}

/// What to do with an answer when logging in at the terminal.
#[derive(Debug)]
pub enum LoginStep {
    /// Logged in.
    Done,
    /// Ask the server to log in on the locked device, and look at its answer.
    DeviceLockLogin,
    /// Show this slider URL, read a ticket from the terminal, submit it, and
    /// look at the answer.
    Captcha { url: String },
    /// The login failed, for this reason.
    Failed(String),
}

/// Whether `s` is the failure with this reason.
pub open spec fn fails_with(s: LoginStep, reason: Seq<char>) -> bool {
    s matches LoginStep::Failed(r) && r@ == reason
}

/// The next step after an answer of the server, when logging in at the
/// terminal.
pub fn handle_login_resp(resp: LoginResponse) -> (s: LoginStep)
    ensures
        match resp {
            LoginResponse::Success => s is Done,
            LoginResponse::DeviceLocked { .. } => fails_with(s, "password login failure"@),
            LoginResponse::DeviceLockLogin => s is DeviceLockLogin,
            LoginResponse::AccountFrozen => fails_with(s, "账号被冻结"@),
            LoginResponse::NeedCaptcha { verify_url } => match verify_url {
                Some(u) => s == (LoginStep::Captcha { url: u }),
                None => fails_with(s, "NeedCaptcha without url"@),
            },
            LoginResponse::TooManySMSRequest => fails_with(s, "短信验证码请求过于频繁"@),
            LoginResponse::UnknownStatus => fails_with(s, "未知状态"@),
        },
{
    match resp {
        LoginResponse::Success => LoginStep::Done,
        LoginResponse::DeviceLocked { .. } => LoginStep::Failed(lit("password login failure")),
        LoginResponse::DeviceLockLogin => LoginStep::DeviceLockLogin,
        LoginResponse::AccountFrozen => LoginStep::Failed(lit("账号被冻结")),
        LoginResponse::NeedCaptcha { verify_url } => match verify_url {
            Some(u) => LoginStep::Captcha { url: u },
            None => LoginStep::Failed(lit("NeedCaptcha without url")),
        },
        LoginResponse::TooManySMSRequest => LoginStep::Failed(lit("短信验证码请求过于频繁")),
        LoginResponse::UnknownStatus => LoginStep::Failed(lit("未知状态")),
    }
}

/// The state of a QR code login.
#[derive(Debug)]
pub enum QRCodeState {
    /// The code to show: its PNG image.
    ImageFetch { image_data: Vec<u8> },
    WaitingForScan,
    WaitingForConfirm,
    Timeout,
    Confirmed,
    Canceled,
}

/// What to do after asking the server about a QR code.
#[derive(Debug)]
pub enum QrStep {
    /// Ask again in five seconds.
    Wait,
    /// Log in with what the confirmation carried, and handle the answer with
    /// [`handle_login_resp`].
    Login,
    /// The login failed, for this reason.
    Failed(String),
}

/// The next step of a QR code login, by the state of the code.
pub fn qrcode_step(state: &QRCodeState) -> (s: QrStep)
    requires
        !(state is ImageFetch),
    ensures
        match *state {
            QRCodeState::WaitingForScan => s is Wait,
            QRCodeState::WaitingForConfirm => s is Wait,
            QRCodeState::Timeout => s matches QrStep::Failed(r) && r@ == "二维码超时"@,
            QRCodeState::Confirmed => s is Login,
            QRCodeState::Canceled => s matches QrStep::Failed(r) && r@ == "二维码已取消"@,
            QRCodeState::ImageFetch { .. } => false,
        },
{
    match state {
        QRCodeState::WaitingForScan => QrStep::Wait,
        QRCodeState::WaitingForConfirm => QrStep::Wait,
        QRCodeState::Timeout => QrStep::Failed(lit("二维码超时")),
        QRCodeState::Confirmed => QrStep::Login,
        QRCodeState::Canceled => QrStep::Failed(lit("二维码已取消")),
        QRCodeState::ImageFetch { .. } => QrStep::Wait,
    }
}

/// The image of the QR code to scan, or the reason the code could not be
/// fetched.
pub fn qrcode_image(state: QRCodeState) -> (r: Result<Vec<u8>, String>)
    ensures
        match state {
            QRCodeState::ImageFetch { image_data } => r == Ok::<Vec<u8>, String>(image_data),
            _ => r matches Err(m) && m@ == "二维码获取失败"@,
        },
{
    match state {
        QRCodeState::ImageFetch { image_data } => Ok(image_data),
        _ => Err(lit("二维码获取失败")),
    }
}

/// What a login through OneBot answers: the bot, and where to go on.
#[derive(Debug)]
pub struct LoginResp {
    pub user_id: String,
    pub url: Option<String>,
    pub qrcode: Option<Vec<u8>>,
}

/// The answer to a login through OneBot: an error, data, or both.
#[derive(Debug)]
pub struct LoginReply {
    pub error: Option<RespError>,
    pub data: Option<LoginResp>,
}

/// Whether `r` is the plain failure with this detail.
pub open spec fn login_failure(r: LoginReply, detail: Seq<char>) -> bool {
    &&& r.error matches Some(e) && is_error(e, 34004, "登录失败"@, detail)
    &&& r.data is None
}

/// The answer to a login through OneBot, from the server's answer once a
/// device-lock login has been followed.  `user_id` is the bot's number.  A
/// success or a captcha hands back the bot (and the captcha's URL); a locked
/// device fails but also hands back the URL to unlock it.
pub fn login_resp_to_resp(user_id: String, resp: LoginResponse) -> (r: LoginReply)
    requires
        !(resp is DeviceLockLogin),
    ensures
        match resp {
            LoginResponse::Success => r.error is None && r.data == Some(
                LoginResp { user_id, url: None, qrcode: None },
            ),
            LoginResponse::NeedCaptcha { verify_url } => r.error is None && r.data == Some(
                LoginResp { user_id, url: verify_url, qrcode: None },
            ),
            LoginResponse::DeviceLocked { verify_url } => r.error matches Some(e) && is_error(
                e,
                34004,
                "登录失败"@,
                "devicd_locked"@,
            ) && r.data == Some(LoginResp { user_id, url: verify_url, qrcode: None }),
            LoginResponse::AccountFrozen => login_failure(r, "账号被冻结"@),
            LoginResponse::TooManySMSRequest => login_failure(r, "短信验证码请求过于频繁"@),
            LoginResponse::UnknownStatus => login_failure(r, "未知状态"@),
            LoginResponse::DeviceLockLogin => false,
        },
{
    match resp {
        LoginResponse::Success => LoginReply {
            error: None,
            data: Some(LoginResp { user_id, url: None, qrcode: None }),
        },
        LoginResponse::NeedCaptcha { verify_url } => LoginReply {
            error: None,
            data: Some(LoginResp { user_id, url: verify_url, qrcode: None }),
        },
        LoginResponse::DeviceLocked { verify_url } => LoginReply {
            error: Some(login_failed("devicd_locked")),
            data: Some(LoginResp { user_id, url: verify_url, qrcode: None }),
        },
        LoginResponse::AccountFrozen => LoginReply { error: Some(login_failed("账号被冻结")), data: None },
        LoginResponse::TooManySMSRequest => LoginReply {
            error: Some(login_failed("短信验证码请求过于频繁")),
            data: None,
        },
        LoginResponse::UnknownStatus => LoginReply { error: Some(login_failed("未知状态")), data: None },
        LoginResponse::DeviceLockLogin => LoginReply { error: None, data: None },
    }
}

/// The answer to a login through OneBot by QR code: the code's image for the
/// bot `uin`, or a failure when no image came.
pub fn qrcode_login_reply(uin: &str, state: QRCodeState) -> (r: LoginReply)
    ensures
        match state {
            QRCodeState::ImageFetch { image_data } => {
                &&& r.error is None
                &&& r.data matches Some(d)
                &&& d.user_id@ == uin@ && d.url is None && d.qrcode == Some(image_data)
            },
            _ => login_failure(r, "二维码获取失败"@),
        },
{
    match state {
        QRCodeState::ImageFetch { image_data } => LoginReply {
            error: None,
            data: Some(LoginResp { user_id: String::from_str(uin), url: None, qrcode: Some(image_data) }),
        },
        _ => LoginReply { error: Some(login_failed("二维码获取失败")), data: None },
    }
}

/// The answer to a login through OneBot that a saved session token settled.
pub fn token_login_reply(user_id: String) -> (r: LoginReply)
    ensures
        r.error is None,
        r.data == Some(LoginResp { user_id, url: None, qrcode: None }),
{
    LoginReply { error: None, data: Some(LoginResp { user_id, url: None, qrcode: None }) }
}

} // verus!
