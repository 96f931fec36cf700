//! Message identifiers.
//!
//! A group message is named by the group code, the sequence numbers and the
//! random numbers of its parts: `"<group> <seq>-<seq>.. <rand>-<rand>.."`.
//! A private message adds the time it was sent as a fourth field.  Deleting a
//! message reads such an identifier back.
use vstd::prelude::*;
use crate::decimal::{
    int_chars, parse_i32_spec, parse_i64_spec, push_i64, parse_i64, parse_i32,
    lemma_parse_int_chars, lemma_parse_i64_roundtrip, lemma_parse_i32_roundtrip,
};
use crate::resp::{RespError, bad_param, is_error};
use crate::strutil::{
    push_char, str_to_chars, split_chars, split_spec, lemma_split_no_sep, lemma_split_concat,
};

verus! {

/// The texts of the numbers of `v`, joined by `-`.
pub open spec fn join_ints(v: Seq<i32>) -> Seq<char>
    decreases v.len(),
{
    if v.len() == 0 {
        Seq::<char>::empty()
    } else if v.len() == 1 {
        int_chars(v[0] as int)
    } else {
        join_ints(v.drop_last()) + seq!['-'] + int_chars(v.last() as int)
    }
}

/// The identifier of a group message.
pub open spec fn group_message_id_spec(group_code: i64, seqs: Seq<i32>, rands: Seq<i32>) -> Seq<
    char,
> {
    int_chars(group_code as int) + seq![' '] + join_ints(seqs) + seq![' '] + join_ints(rands)
}

/// The identifier of a private message.
pub open spec fn private_message_id_spec(
    uin: i64,
    time: i32,
    seqs: Seq<i32>,
    rands: Seq<i32>,
) -> Seq<char> {
    int_chars(uin as int) + seq![' '] + join_ints(seqs) + seq![' '] + join_ints(rands) + seq![' ']
        + int_chars(time as int)
}

/// The numbers of a `-`-joined list, when every piece reads as an `i32`.
pub open spec fn parse_i32_list_spec(s: Seq<char>) -> Option<Seq<i32>> {
    let parts = split_spec(s, '-');
    if forall|i: int| 0 <= i < parts.len() ==> #[trigger] parse_i32_spec(parts[i]) is Some {
        Some(Seq::new(parts.len(), |i: int| parse_i32_spec(parts[i]).unwrap()))
    } else {
        None
    }
}

/// What a message identifier decodes to: the target (group or user), the
/// sequence numbers, the random numbers, and the time when a fourth field is
/// there.  Fields after the fourth are not read.
pub open spec fn decode_spec(id: Seq<char>) -> Option<(i64, Seq<i32>, Seq<i32>, Option<i32>)> {
    let p = split_spec(id, ' ');
    if p.len() < 3 {
        None
    } else {
        match (parse_i64_spec(p[0]), parse_i32_list_spec(p[1]), parse_i32_list_spec(p[2])) {
            (Some(t), Some(s), Some(r)) => if p.len() >= 4 {
                match parse_i32_spec(p[3]) {
                    Some(tm) => Some((t, s, r, Some(tm))),
                    None => None,
                }
            } else {
                Some((t, s, r, None))
            },
            _ => None,
        }
    }
}

proof fn lemma_join_ints_step(v: Seq<i32>, i: int)
    requires
        0 <= i < v.len(),
    ensures
        join_ints(v.take(i + 1)) == if i == 0 {
            int_chars(v[0] as int)
        } else {
            join_ints(v.take(i)) + seq!['-'] + int_chars(v[i] as int)
        },
{
    let t = v.take(i + 1);
    assert(t.drop_last() =~= v.take(i));
    assert(t.last() == v[i]);
}

/// The joined text of non-negative numbers has no space and no minus sign
/// other than the separators, and splits back into the texts of the numbers.
proof fn lemma_join_ints_split(v: Seq<i32>)
    requires
        v.len() >= 1,
        forall|i: int| 0 <= i < v.len() ==> v[i] >= 0,
    ensures
        !join_ints(v).contains(' '),
        split_spec(join_ints(v), '-').len() == v.len(),
        forall|i: int|
            0 <= i < v.len() ==> #[trigger] split_spec(join_ints(v), '-')[i] == int_chars(
                v[i] as int,
            ),
    decreases v.len(),
{
    if v.len() == 1 {
        lemma_parse_int_chars(v[0] as int);
        lemma_split_no_sep(int_chars(v[0] as int), '-');
    } else {
        let w = v.drop_last();
        lemma_join_ints_split(w);
        let last = int_chars(v.last() as int);
        lemma_parse_int_chars(v.last() as int);
        lemma_split_no_sep(last, '-');
        lemma_split_concat(join_ints(w), last, '-');
        let j = join_ints(v);
        assert(j == join_ints(w) + seq!['-'] + last);
        assert(!j.contains(' ')) by {
            if j.contains(' ') {
                let k = choose|k: int| 0 <= k < j.len() && j[k] == ' ';
                if k < join_ints(w).len() {
                    assert(join_ints(w)[k] == ' ');
                } else if k > join_ints(w).len() {
                    assert(last[k - join_ints(w).len() - 1] == ' ');
                }
            }
        }
        assert forall|i: int| 0 <= i < v.len() implies #[trigger] split_spec(j, '-')[i]
            == int_chars(v[i] as int) by {
            if i < v.len() - 1 {
                assert(w[i] == v[i]);
            }
        }
    }
}

/// A joined list of non-negative numbers reads back as the list.
proof fn lemma_join_ints_parse(v: Seq<i32>)
    requires
        v.len() >= 1,
        forall|i: int| 0 <= i < v.len() ==> v[i] >= 0,
    ensures
        parse_i32_list_spec(join_ints(v)) == Some(v),
        !join_ints(v).contains(' '),
{
    lemma_join_ints_split(v);
    let parts = split_spec(join_ints(v), '-');
    assert forall|i: int| 0 <= i < parts.len() implies #[trigger] parse_i32_spec(parts[i]) == Some(
        v[i],
    ) by {
        lemma_parse_i32_roundtrip(v[i]);
    }
    assert(Seq::new(parts.len(), |i: int| parse_i32_spec(parts[i]).unwrap()) =~= v);
}

/// Appends the texts of the numbers of `v`, joined by `-`.
fn push_joined(s: &mut String, v: &Vec<i32>)
    ensures
        final(s)@ == old(s)@ + join_ints(v@),
{
    let mut i: usize = 0;
    proof {
        assert(v@.take(0) =~= Seq::<i32>::empty());
        assert(s@ =~= old(s)@ + join_ints(v@.take(0)));
    }
    while i < v.len()
        invariant
            i <= v@.len(),
            s@ == old(s)@ + join_ints(v@.take(i as int)),
        decreases v.len() - i,
    {
        proof {
            lemma_join_ints_step(v@, i as int);
        }
        if i > 0 {
            push_char(s, '-');
        }
        push_i64(s, v[i] as i64);
        i = i + 1;
        proof {
            assert(s@ =~= old(s)@ + join_ints(v@.take(i as int)));
        }
    }
    proof {
        assert(v@.take(v@.len() as int) =~= v@);
    }
}

/// The identifier of a group message: the group code, then the sequence
/// numbers and then the random numbers, each list joined by `-`, the three
/// fields separated by spaces.
pub fn new_group_message_id(group_code: i64, seqs: Vec<i32>, rands: Vec<i32>) -> (id: String)
    ensures
        id@ == group_message_id_spec(group_code, seqs@, rands@),
{
    let mut s = String::new();
    push_i64(&mut s, group_code);
    push_char(&mut s, ' ');
    push_joined(&mut s, &seqs);
    push_char(&mut s, ' ');
    push_joined(&mut s, &rands);
    proof {
        assert(s@ =~= group_message_id_spec(group_code, seqs@, rands@));
    }
    s
}

/// The identifier of a private message: the user, the sequence numbers, the
/// random numbers and the time, separated by spaces.
pub fn new_private_message_id(uin: i64, time: i32, seqs: Vec<i32>, rands: Vec<i32>) -> (id:
    String)
    ensures
        id@ == private_message_id_spec(uin, time, seqs@, rands@),
{
    let mut s = String::new();
    push_i64(&mut s, uin);
    push_char(&mut s, ' ');
    push_joined(&mut s, &seqs);
    push_char(&mut s, ' ');
    push_joined(&mut s, &rands);
    push_char(&mut s, ' ');
    push_i64(&mut s, time as i64);
    proof {
        assert(s@ =~= private_message_id_spec(uin, time, seqs@, rands@));
    }
    s
}

/// Reads a `-`-joined list of `i32`.
fn parse_i32_list(s: &Vec<char>) -> (r: Option<Vec<i32>>)
    ensures
        r matches Some(v) ==> parse_i32_list_spec(s@) == Some(v@),
        r is None ==> parse_i32_list_spec(s@) is None,
{
    let parts = split_chars(s, '-');
    let ghost sp = split_spec(s@, '-');
    let mut out: Vec<i32> = Vec::new();
    let mut i: usize = 0;
    while i < parts.len()
        invariant
            i <= parts@.len(),
            sp == split_spec(s@, '-'),
            parts@.len() == sp.len(),
            forall|k: int| 0 <= k < parts@.len() ==> #[trigger] parts@[k]@ == sp[k],
            out@.len() == i,
            forall|k: int|
                0 <= k < i ==> #[trigger] parse_i32_spec(sp[k]) == Some(out@[k]),
        decreases parts.len() - i,
    {
        match parse_i32(&parts[i]) {
            Some(x) => {
                out.push(x);
            },
            None => {
                proof {
                    assert(parts@[i as int]@ == sp[i as int]);
                    assert(parse_i32_spec(sp[i as int]) is None);
                    assert(!(forall|k: int|
                        0 <= k < sp.len() ==> #[trigger] parse_i32_spec(sp[k]) is Some));
                }
                return None;
            },
        }
        i = i + 1;
    }
    proof {
        assert forall|k: int| 0 <= k < sp.len() implies #[trigger] parse_i32_spec(sp[k]) is Some by {
            assert(parse_i32_spec(sp[k]) == Some(out@[k]));
        }
        assert(Seq::new(sp.len(), |k: int| parse_i32_spec(sp[k]).unwrap()) =~= out@);
    }
    Some(out)
}

/// The error every malformed identifier gives.
pub open spec fn is_decode_error(e: RespError) -> bool {
    is_error(e, 10003, "无效的动作请求参数"@, "message_id decode failed"@)
}

/// Reads a message identifier back into its target, sequence numbers, random
/// numbers and, for a private message, its time.
pub fn decode_message_id(message_id: &str) -> (r: Result<
    (i64, Vec<i32>, Vec<i32>, Option<i32>),
    RespError,
>)
    ensures
        match decode_spec(message_id@) {
            Some((t, s, rd, tm)) => r matches Ok((t2, s2, rd2, tm2)) && t2 == t && s2@ == s
                && rd2@ == rd && tm2 == tm,
            None => r matches Err(e) && is_decode_error(e),
        },
{
    let cs = str_to_chars(message_id);
    let parts = split_chars(&cs, ' ');
    let ghost p = split_spec(message_id@, ' ');
    if parts.len() < 3 {
        return Err(bad_param("message_id decode failed"));
    }
    let target = match parse_i64(&parts[0]) {
        Some(t) => t,
        None => {
            return Err(bad_param("message_id decode failed"));
        },
    };
    let seqs = match parse_i32_list(&parts[1]) {
        Some(v) => v,
        None => {
            return Err(bad_param("message_id decode failed"));
        },
    };
    let rands = match parse_i32_list(&parts[2]) {
        Some(v) => v,
        None => {
            return Err(bad_param("message_id decode failed"));
        },
    };
    if parts.len() >= 4 {
        match parse_i32(&parts[3]) {
            Some(t) => Ok((target, seqs, rands, Some(t))),
            None => Err(bad_param("message_id decode failed")),
        }
    } else {
        Ok((target, seqs, rands, None))
    }
}

/// Whether every number of `v` is non-negative.
pub open spec fn all_nonneg(v: Seq<i32>) -> bool {
    forall|i: int| 0 <= i < v.len() ==> v[i] >= 0
}

/// Decoding the identifier of a group message gives back its group code,
/// sequence numbers and random numbers, and no time.  This holds when both
/// lists are non-empty and hold no negative number: an empty list or a minus
/// sign inside a list would not read back.
pub proof fn lemma_group_message_id_roundtrip(group_code: i64, seqs: Seq<i32>, rands: Seq<i32>)
    requires
        seqs.len() >= 1,
        rands.len() >= 1,
        all_nonneg(seqs),
        all_nonneg(rands),
    ensures
        decode_spec(group_message_id_spec(group_code, seqs, rands)) == Some(
            (group_code, seqs, rands, None::<i32>),
        ),
{
    let c = int_chars(group_code as int);
    let js = join_ints(seqs);
    let jr = join_ints(rands);
    lemma_parse_int_chars(group_code as int);
    lemma_parse_i64_roundtrip(group_code);
    lemma_join_ints_parse(seqs);
    lemma_join_ints_parse(rands);
    lemma_split_no_sep(c, ' ');
    lemma_split_no_sep(js, ' ');
    lemma_split_no_sep(jr, ' ');
    lemma_split_concat(c, js, ' ');
    lemma_split_concat(c + seq![' '] + js, jr, ' ');
    let id = group_message_id_spec(group_code, seqs, rands);
    assert(id == (c + seq![' '] + js) + seq![' '] + jr);
    let p = split_spec(id, ' ');
    assert(p =~= seq![c, js, jr]);
}

/// Decoding the identifier of a private message gives back its user, sequence
/// numbers, random numbers and time, under the same conditions on the lists as
/// for a group message.
pub proof fn lemma_private_message_id_roundtrip(
    uin: i64,
    time: i32,
    seqs: Seq<i32>,
    rands: Seq<i32>,
)
    requires
        seqs.len() >= 1,
        rands.len() >= 1,
        all_nonneg(seqs),
        all_nonneg(rands),
    ensures
        decode_spec(private_message_id_spec(uin, time, seqs, rands)) == Some(
            (uin, seqs, rands, Some(time)),
        ),
{
    let c = int_chars(uin as int);
    let js = join_ints(seqs);
    let jr = join_ints(rands);
    let tc = int_chars(time as int);
    lemma_parse_int_chars(uin as int);
    lemma_parse_int_chars(time as int);
    lemma_parse_i64_roundtrip(uin);
    lemma_parse_i32_roundtrip(time);
    lemma_join_ints_parse(seqs);
    lemma_join_ints_parse(rands);
    lemma_split_no_sep(c, ' ');
    lemma_split_no_sep(js, ' ');
    lemma_split_no_sep(jr, ' ');
    lemma_split_no_sep(tc, ' ');
    lemma_split_concat(c, js, ' ');
    lemma_split_concat(c + seq![' '] + js, jr, ' ');
    lemma_split_concat(c + seq![' '] + js + seq![' '] + jr, tc, ' ');
    let id = private_message_id_spec(uin, time, seqs, rands);
    let p = split_spec(id, ' ');
    assert(p =~= seq![c, js, jr, tc]);
}

} // verus!
