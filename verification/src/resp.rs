//! Failed action responses: a return code and a human-readable message.
//!
//! Every error is built the same way: a fixed text for its kind, and, when the
//! detail handed in is not empty, a colon and that detail.
use vstd::prelude::*;
use crate::strutil::{push_char, str_to_chars, push_chars};

verus! {

/// A failed action response.
#[derive(Debug, Clone, PartialEq, Eq)]
pub struct RespError {
    pub retcode: u32,
    pub message: String,
}

/// The message of an error of the kind `base` with the detail `detail`.
pub open spec fn error_message(base: Seq<char>, detail: Seq<char>) -> Seq<char> {
    if detail.len() == 0 {
        base
    } else {
        base + seq![':'] + detail
    }
}

/// Whether `e` is the error with code `code`, kind text `base` and detail `detail`.
pub open spec fn is_error(e: RespError, code: u32, base: Seq<char>, detail: Seq<char>) -> bool {
    e.retcode == code && e.message@ == error_message(base, detail)
}

/// An error with the given code, kind text and detail.
pub fn make_error(retcode: u32, base: &str, detail: &str) -> (e: RespError)
    ensures
        is_error(e, retcode, base@, detail@),
{
    let mut message = String::from_str(base);
    let d = str_to_chars(detail);
    if d.len() > 0 {
        push_char(&mut message, ':');
        push_chars(&mut message, &d);
    }
    proof {
        assert(message@ =~= error_message(base@, detail@));
    }
    RespError { retcode, message }
}

/// A request whose action is not supported (code 10002).
pub fn unsupported_action(detail: &str) -> (e: RespError)
    ensures
        is_error(e, 10002, "不支持的动作"@, detail@),
{
    make_error(10002, "不支持的动作", detail)
}

/// A request parameter that is missing or malformed (code 10003).
pub fn bad_param(detail: &str) -> (e: RespError)
    ensures
        is_error(e, 10003, "无效的动作请求参数"@, detail@),
{
    make_error(10003, "无效的动作请求参数", detail)
}

/// A request parameter whose value is not supported (code 10004).
pub fn unsupported_param(detail: &str) -> (e: RespError)
    ensures
        is_error(e, 10004, "不支持的动作请求参数"@, detail@),
{
    make_error(10004, "不支持的动作请求参数", detail)
}

/// A message segment type that is not supported (code 10005).
pub fn unsupported_segment(detail: &str) -> (e: RespError)
    ensures
        is_error(e, 10005, "不支持的消息段类型"@, detail@),
{
    make_error(10005, "不支持的消息段类型", detail)
}

/// A message segment whose data is missing or malformed (code 10006).
pub fn bad_segment_data(detail: &str) -> (e: RespError)
    ensures
        is_error(e, 10006, "无效的消息段参数"@, detail@),
{
    make_error(10006, "无效的消息段参数", detail)
}

/// A fault of the action handler (code 20001).
pub fn bad_handler(detail: &str) -> (e: RespError)
    ensures
        is_error(e, 20001, "动作处理器实现错误"@, detail@),
{
    make_error(20001, "动作处理器实现错误", detail)
}

/// A runtime failure of the action handler (code 20002).
pub fn internal_handler(detail: &str) -> (e: RespError)
    ensures
        is_error(e, 20002, "动作处理器运行时抛出异常"@, detail@),
{
    make_error(20002, "动作处理器运行时抛出异常", detail)
}

/// A message to be sent that holds nothing (code 10003).
pub fn empty_message(detail: &str) -> (e: RespError)
    ensures
        is_error(e, 10003, "消息为空"@, detail@),
{
    make_error(10003, "消息为空", detail)
}

/// A message that the database does not hold (code 35001).
pub fn message_not_exist(detail: &str) -> (e: RespError)
    ensures
        is_error(e, 35001, "消息不存在"@, detail@),
{
    make_error(35001, "消息不存在", detail)
}

/// A group the bot does not know (code 35003).
pub fn group_not_exist(detail: &str) -> (e: RespError)
    ensures
        is_error(e, 35003, "群不存在"@, detail@),
{
    make_error(35003, "群不存在", detail)
}

/// A file that could not be opened (code 32001).
pub fn file_open_error(detail: &str) -> (e: RespError)
    ensures
        is_error(e, 32001, "文件打开失败"@, detail@),
{
    make_error(32001, "文件打开失败", detail)
}

/// A file that could not be read (code 32002).
pub fn file_read_error(detail: &str) -> (e: RespError)
    ensures
        is_error(e, 32002, "文件读取失败"@, detail@),
{
    make_error(32002, "文件读取失败", detail)
}

/// A file that could not be created (code 32003).
pub fn file_create_error(detail: &str) -> (e: RespError)
    ensures
        is_error(e, 32003, "文件创建失败"@, detail@),
{
    make_error(32003, "文件创建失败", detail)
}

/// A file that could not be written (code 32004).
pub fn file_write_error(detail: &str) -> (e: RespError)
    ensures
        is_error(e, 32004, "文件写入失败"@, detail@),
{
    make_error(32004, "文件写入失败", detail)
}

/// A file the bot does not hold (code 32005).
pub fn file_not_found(detail: &str) -> (e: RespError)
    ensures
        is_error(e, 32005, "文件不存在"@, detail@),
{
    make_error(32005, "文件不存在", detail)
}

/// A fragmented upload whose preparation was not done (code 32006).
pub fn prepare_file_first(detail: &str) -> (e: RespError)
    ensures
        is_error(e, 32006, "请先准备文件"@, detail@),
{
    make_error(32006, "请先准备文件", detail)
}

/// A fragmented upload whose fragments do not add up to its size (code 32007).
pub fn file_total_size_not_match(detail: &str) -> (e: RespError)
    ensures
        is_error(e, 32007, "文件大小不匹配"@, detail@),
{
    make_error(32007, "文件大小不匹配", detail)
}

/// A fragmented upload whose SHA-256 is not the one announced (code 32008).
pub fn file_sha256_not_match(detail: &str) -> (e: RespError)
    ensures
        is_error(e, 32008, "文件 sha256 不匹配"@, detail@),
{
    make_error(32008, "文件 sha256 不匹配", detail)
}

/// A download that failed (code 33001).
pub fn net_download_fail(detail: &str) -> (e: RespError)
    ensures
        is_error(e, 33001, "网络下载失败"@, detail@),
{
    make_error(33001, "网络下载失败", detail)
}

/// An error of the QQ protocol client (code 34001).
pub fn rq_error(detail: &str) -> (e: RespError)
    ensures
        is_error(e, 34001, "机器人平台错误"@, detail@),
{
    make_error(34001, "机器人平台错误", detail)
}

/// An action the bot may not perform in a group (code 34002).
pub fn permission_denied(detail: &str) -> (e: RespError)
    ensures
        is_error(e, 34002, "权限不足"@, detail@),
{
    make_error(34002, "权限不足", detail)
}

/// An action on a bot whose client is not started (code 34003).
pub fn client_not_initialized(detail: &str) -> (e: RespError)
    ensures
        is_error(e, 34003, "客户端未初始化"@, detail@),
{
    make_error(34003, "客户端未初始化", detail)
}

/// A login that failed (code 34004).
pub fn login_failed(detail: &str) -> (e: RespError)
    ensures
        is_error(e, 34004, "登录失败"@, detail@),
{
    make_error(34004, "登录失败", detail)
}

/// An image with no usable URL (code 41002).
pub fn bad_image_url(detail: &str) -> (e: RespError)
    ensures
        is_error(e, 41002, "图片URL错误"@, detail@),
{
    make_error(41002, "图片URL错误", detail)
}

/// An image with no usable local path (code 41003).
pub fn bad_image_path(detail: &str) -> (e: RespError)
    ensures
        is_error(e, 41003, "图片路径错误"@, detail@),
{
    make_error(41003, "图片路径错误", detail)
}

/// An image whose content could not be had (code 41004).
pub fn bad_image_data(detail: &str) -> (e: RespError)
    ensures
        is_error(e, 41004, "图片内容错误"@, detail@),
{
    make_error(41004, "图片内容错误", detail)
}

} // verus!
