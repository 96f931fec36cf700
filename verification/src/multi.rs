//! Running several bots behind one OneBot connection: which bot an action
//! goes to, and who may shut the implementation down or log a bot out.
use vstd::prelude::*;
use crate::resp::{RespError, bad_param, client_not_initialized, internal_handler, is_error};
use crate::strutil::str_eq;

verus! {

/// Whether `ids` holds `id`.
pub open spec fn holds_id(ids: Seq<String>, id: Seq<char>) -> bool {
    exists|i: int| 0 <= i < ids.len() && #[trigger] ids[i]@ == id
}

/// Which of the running bots, listed by their QQ numbers in `ids`, handles an
/// action for the bot `bot`: that bot when it runs, else the only bot when
/// there is one.  With several bots and none of them `bot`, the action must
/// name its bot.
pub fn select_bot(bot: &str, ids: &Vec<String>) -> (r: Result<usize, RespError>)
    ensures
        holds_id(ids@, bot@) ==> (r matches Ok(i) && i < ids@.len() && ids@[i as int]@ == bot@),
        !holds_id(ids@, bot@) && ids@.len() == 1 ==> r == Ok::<usize, RespError>(0),
        !holds_id(ids@, bot@) && ids@.len() != 1 ==> (r matches Err(e) && is_error(
            e,
            10003,
            "无效的动作请求参数"@,
            "self_id required"@,
        )),
{
    let n = ids.len();
    let mut i: usize = 0;
    while i < n
        invariant
            n == ids@.len(),
            i <= n,
            forall|k: int| 0 <= k < i ==> ids@[k]@ != bot@,
        decreases n - i,
    {
        if str_eq(ids[i].as_str(), bot) {
            return Ok(i);
        }
        i = i + 1;
    }
    if n == 1 {
        Ok(0)
    } else {
        Err(bad_param("self_id required"))
    }
}

/// Whether `given` is the super token: with none configured, or a different
/// one, the request is refused.
pub fn check_super_token(configured: &Option<String>, given: &str) -> (r: Result<(), RespError>)
    ensures
        match configured {
            None => r matches Err(e) && is_error(e, 10003, "无效的动作请求参数"@, "super_token not set"@),
            Some(t) => if t@ == given@ {
                r is Ok
            } else {
                r matches Err(e) && is_error(e, 10003, "无效的动作请求参数"@, "super_token not match"@)
            },
        },
{
    match configured {
        None => Err(bad_param("super_token not set")),
        Some(t) => if str_eq(t.as_str(), given) {
            Ok(())
        } else {
            Err(bad_param("super_token not match"))
        },
    }
}

/// The answer to a logout: the token must match, then the bot must have been
/// running.
pub fn logout_result(configured: &Option<String>, given: &str, removed: bool) -> (r: Result<(), RespError>)
    ensures
        match configured {
            None => r matches Err(e) && is_error(e, 10003, "无效的动作请求参数"@, "super_token not set"@),
            Some(t) => if t@ != given@ {
                r matches Err(e) && is_error(e, 10003, "无效的动作请求参数"@, "super_token not match"@)
            } else if removed {
                r is Ok
            } else {
                r matches Err(e) && is_error(e, 20002, "动作处理器运行时抛出异常"@, "bot not found"@)
            },
        },
{
    match check_super_token(configured, given) {
        Err(e) => Err(e),
        Ok(()) => if removed {
            Ok(())
        } else {
            Err(internal_handler("bot not found"))
        },
    }
}

/// The answer to a ticket submitted for a bot that is not waiting for one.
pub fn no_pending_login() -> (e: RespError)
    ensures
        is_error(e, 34003, "客户端未初始化"@, "please call login first"@),
{
    client_not_initialized("please call login first")
}

} // verus!
