//! Decimal text of integers, written the way `to_string` writes them and read
//! the way `str::parse` reads them.
use vstd::prelude::*;
use crate::strutil::push_char;

verus! {

/// The character of the decimal digit `d` (0 to 9).
pub open spec fn digit_char(d: int) -> char {
    (48 + d) as char
}

/// Whether `c` is one of `0`..`9`.
pub open spec fn is_digit(c: char) -> bool {
    48 <= (c as int) && (c as int) <= 57
}

/// The value of the digit character `c`.
pub open spec fn digit_val(c: char) -> int {
    (c as int) - 48
}

/// The decimal digits of `n`, most significant first, without leading zeros.
pub open spec fn nat_digits(n: nat) -> Seq<char>
    decreases n,
{
    if n < 10 {
        seq![digit_char(n as int)]
    } else {
        nat_digits(n / 10).push(digit_char((n % 10) as int))
    }
}

/// The text `to_string` gives for the integer `n`: a minus sign for negative
/// values, then the digits of its magnitude.
pub open spec fn int_chars(n: int) -> Seq<char> {
    if n < 0 {
        seq!['-'] + nat_digits((-n) as nat)
    } else {
        nat_digits(n as nat)
    }
}

/// Whether every character of `s` is a digit.
pub open spec fn all_digits(s: Seq<char>) -> bool {
    forall|i: int| 0 <= i < s.len() ==> is_digit(#[trigger] s[i])
}

/// The value of a string of digits, read left to right.
pub open spec fn digits_value(s: Seq<char>) -> int
    decreases s.len(),
{
    if s.len() == 0 {
        0
    } else {
        digits_value(s.drop_last()) * 10 + digit_val(s.last())
    }
}

/// What `str::parse` makes of `s` for a signed integer type wide enough for
/// any value: an optional `+` or `-`, then at least one digit, and nothing else.
pub open spec fn parse_int_spec(s: Seq<char>) -> Option<int> {
    if s.len() > 0 && (s[0] == '+' || s[0] == '-') {
        let body = s.drop_first();
        if body.len() > 0 && all_digits(body) {
            if s[0] == '-' {
                Some(-digits_value(body))
            } else {
                Some(digits_value(body))
            }
        } else {
            None
        }
    } else if s.len() > 0 && all_digits(s) {
        Some(digits_value(s))
    } else {
        None
    }
}

/// What `str::parse::<i64>` makes of `s`.
pub open spec fn parse_i64_spec(s: Seq<char>) -> Option<i64> {
    match parse_int_spec(s) {
        Some(v) => if i64::MIN <= v <= i64::MAX {
            Some(v as i64)
        } else {
            None
        },
        None => None,
    }
}

/// What `str::parse::<i32>` makes of `s`.
pub open spec fn parse_i32_spec(s: Seq<char>) -> Option<i32> {
    match parse_int_spec(s) {
        Some(v) => if i32::MIN <= v <= i32::MAX {
            Some(v as i32)
        } else {
            None
        },
        None => None,
    }
}

/// What `str::parse::<u8>` makes of `s`: an optional `+`, then digits.
pub open spec fn parse_u8_spec(s: Seq<char>) -> Option<u8> {
    if s.len() > 0 && s[0] == '-' {
        None
    } else {
        match parse_int_spec(s) {
            Some(v) => if 0 <= v <= u8::MAX {
                Some(v as u8)
            } else {
                None
            },
            None => None,
        }
    }
}

proof fn lemma_digits_value_nonneg(s: Seq<char>)
    requires
        all_digits(s),
    ensures
        digits_value(s) >= 0,
    decreases s.len(),
{
    if s.len() > 0 {
        assert(all_digits(s.drop_last())) by {
            assert forall|i: int| 0 <= i < s.drop_last().len() implies is_digit(
                #[trigger] s.drop_last()[i],
            ) by {
                assert(s.drop_last()[i] == s[i]);
            }
        }
        lemma_digits_value_nonneg(s.drop_last());
        assert(is_digit(s[s.len() - 1]));
    }
}

/// A longer run of digits never has a smaller value than its prefix.
proof fn lemma_digits_value_prefix(s: Seq<char>, k: int)
    requires
        all_digits(s),
        0 <= k <= s.len(),
    ensures
        digits_value(s.take(k)) <= digits_value(s),
    decreases s.len() - k,
{
    if k < s.len() {
        lemma_digits_value_prefix(s, k + 1);
        let t = s.take(k + 1);
        assert(t.drop_last() =~= s.take(k));
        assert(t.last() == s[k]);
        assert(is_digit(s[k]));
        assert(all_digits(s.take(k))) by {
            assert forall|i: int| 0 <= i < s.take(k).len() implies is_digit(
                #[trigger] s.take(k)[i],
            ) by {
                assert(s.take(k)[i] == s[i]);
            }
        }
        lemma_digits_value_nonneg(s.take(k));
    } else {
        assert(s.take(k) =~= s);
    }
}

/// The digits of `n` are digits, at least one of them, and read back as `n`.
pub proof fn lemma_nat_digits(n: nat)
    ensures
        nat_digits(n).len() >= 1,
        all_digits(nat_digits(n)),
        digits_value(nat_digits(n)) == n,
        !nat_digits(n).contains('-'),
        !nat_digits(n).contains(' '),
        nat_digits(n)[0] != '+',
        nat_digits(n)[0] != '-',
    decreases n,
{
    let d = nat_digits(n);
    if n < 10 {
        assert(d.len() == 1);
        assert(d[0] == digit_char(n as int));
        assert(digit_val(d.last()) == n);
        assert(d.drop_last() =~= Seq::<char>::empty());
        assert(digits_value(Seq::<char>::empty()) == 0);
        assert(digits_value(d) == digits_value(d.drop_last()) * 10 + digit_val(d.last()));
    } else {
        lemma_nat_digits(n / 10);
        let p = nat_digits(n / 10);
        assert(d.drop_last() =~= p);
        assert(d.last() == digit_char((n % 10) as int));
        assert(digit_val(d.last()) == n % 10);
        assert(digits_value(d) == digits_value(d.drop_last()) * 10 + digit_val(d.last()));
        assert((n / 10) * 10 + n % 10 == n);
        assert(all_digits(d)) by {
            assert forall|i: int| 0 <= i < d.len() implies is_digit(#[trigger] d[i]) by {
                if i < p.len() {
                    assert(d[i] == p[i]);
                }
            }
        }
        assert(d[0] == p[0]);
    }
    assert(!d.contains('-')) by {
        if d.contains('-') {
            let k = choose|k: int| 0 <= k < d.len() && d[k] == '-';
            assert(is_digit(d[k]));
        }
    }
    assert(!d.contains(' ')) by {
        if d.contains(' ') {
            let k = choose|k: int| 0 <= k < d.len() && d[k] == ' ';
            assert(is_digit(d[k]));
        }
    }
    assert(is_digit(d[0]));
}

/// Reading back the text of an integer gives the integer.
pub proof fn lemma_parse_int_chars(n: int)
    ensures
        parse_int_spec(int_chars(n)) == Some(n),
        !int_chars(n).contains(' '),
        n >= 0 ==> !int_chars(n).contains('-'),
        int_chars(n).len() >= 1,
{
    if n < 0 {
        let m = (-n) as nat;
        lemma_nat_digits(m);
        let s = int_chars(n);
        assert(s[0] == '-');
        assert(s.drop_first() =~= nat_digits(m));
        assert(!s.contains(' ')) by {
            if s.contains(' ') {
                let k = choose|k: int| 0 <= k < s.len() && s[k] == ' ';
                if k > 0 {
                    assert(s[k] == nat_digits(m)[k - 1]);
                }
            }
        }
    } else {
        lemma_nat_digits(n as nat);
    }
}

/// `parse::<i64>` reads back the text of any `i64`.
pub proof fn lemma_parse_i64_roundtrip(n: i64)
    ensures
        parse_i64_spec(int_chars(n as int)) == Some(n),
{
    lemma_parse_int_chars(n as int);
}

/// `parse::<i32>` reads back the text of any `i32`.
pub proof fn lemma_parse_i32_roundtrip(n: i32)
    ensures
        parse_i32_spec(int_chars(n as int)) == Some(n),
{
    lemma_parse_int_chars(n as int);
}

/// The character of the digit `d`.
fn digit_to_char(d: u64) -> (c: char)
    requires
        d < 10,
    ensures
        c == digit_char(d as int),
{
    let b: u8 = 48u8 + (d as u8);
    b as char
}

/// Appends the decimal digits of `n` to `s`.
fn push_nat_digits(s: &mut String, n: u64)
    ensures
        final(s)@ == old(s)@ + nat_digits(n as nat),
    decreases n,
{
    if n >= 10 {
        push_nat_digits(s, n / 10);
        push_char(s, digit_to_char(n % 10));
        assert(final(s)@ =~= old(s)@ + nat_digits(n as nat));
    } else {
        push_char(s, digit_to_char(n));
        assert(final(s)@ =~= old(s)@ + nat_digits(n as nat));
    }
}

/// Appends the text `to_string` gives for `n`.
pub fn push_i64(s: &mut String, n: i64)
    ensures
        final(s)@ == old(s)@ + int_chars(n as int),
{
    if n < 0 {
        push_char(s, '-');
        let m: i128 = -(n as i128);
        push_nat_digits(s, m as u64);
        assert(final(s)@ =~= old(s)@ + int_chars(n as int));
    } else {
        push_nat_digits(s, n as u64);
    }
}

/// `n.to_string()` for an `i64`.
pub fn i64_to_string(n: i64) -> (s: String)
    ensures
        s@ == int_chars(n as int),
{
    let mut s = String::new();
    push_i64(&mut s, n);
    assert(s@ =~= int_chars(n as int));
    s
}

/// `n.to_string()` for an `i32`.
pub fn i32_to_string(n: i32) -> (s: String)
    ensures
        s@ == int_chars(n as int),
{
    i64_to_string(n as i64)
}

/// `n.to_string()` for a `u32`.
pub fn u32_to_string(n: u32) -> (s: String)
    ensures
        s@ == int_chars(n as int),
{
    i64_to_string(n as i64)
}

/// The value of the digit run `s[start..end]`, or `None` once it passes `bound`.
fn read_digits(s: &Vec<char>, start: usize, bound: u64) -> (r: Option<u64>)
    requires
        start <= s@.len(),
        bound <= 9223372036854775808u64,
    ensures
        r matches Some(v) ==> all_digits(s@.skip(start as int)) && v == digits_value(
            s@.skip(start as int),
        ) && v <= bound,
        r is None ==> !all_digits(s@.skip(start as int)) || digits_value(s@.skip(start as int))
            > bound,
{
    let ghost body = s@.skip(start as int);
    let mut acc: u128 = 0;
    let mut i: usize = start;
    proof {
        assert(body.take(0) =~= Seq::<char>::empty());
    }
    while i < s.len()
        invariant
            start <= i <= s@.len(),
            body == s@.skip(start as int),
            all_digits(body.take(i - start)),
            acc == digits_value(body.take(i - start)),
            acc <= bound,
            bound <= 9223372036854775808u64,
        decreases s.len() - i,
    {
        let c = s[i];
        let ghost k: int = i - start;
        proof {
            assert(body[k] == c);
            assert(body.take(k + 1).drop_last() =~= body.take(k));
            assert(body.take(k + 1).last() == c);
        }
        if c < '0' || c > '9' {
            proof {
                assert(!is_digit(body[k]));
            }
            return None;
        }
        let v = c as u32;
        proof {
            assert(is_digit(c));
            assert(v as int == c as int);
        }
        let next: u128 = acc * 10 + ((v - 48) as u128);
        proof {
            assert(all_digits(body.take(k + 1))) by {
                assert forall|j: int| 0 <= j < k + 1 implies is_digit(#[trigger] body.take(k + 1)[j]) by {
                    if j < k {
                        assert(body.take(k + 1)[j] == body.take(k)[j]);
                    }
                }
            }
        }
        if next > bound as u128 {
            proof {
                if all_digits(body) {
                    lemma_digits_value_prefix(body, k + 1);
                }
            }
            return None;
        }
        acc = next;
        i = i + 1;
    }
    proof {
        assert(body.take(i - start) =~= body);
    }
    Some(acc as u64)
}

/// `s.parse::<i64>()`, with the error as `None`.
pub fn parse_i64(s: &Vec<char>) -> (r: Option<i64>)
    ensures
        r == parse_i64_spec(s@),
{
    if s.len() == 0 {
        return None;
    }
    let c0 = s[0];
    if c0 == '+' || c0 == '-' {
        if s.len() == 1 {
            return None;
        }
        let neg = c0 == '-';
        let bound: u64 = if neg { 9223372036854775808u64 } else { 9223372036854775807u64 };
        match read_digits(s, 1, bound) {
            Some(v) => {
                proof {
                    assert(s@.skip(1) =~= s@.drop_first());
                }
                if neg {
                    let w: i128 = -(v as i128);
                    Some(w as i64)
                } else {
                    Some(v as i64)
                }
            },
            None => {
                proof {
                    assert(s@.skip(1) =~= s@.drop_first());
                }
                None
            },
        }
    } else {
        match read_digits(s, 0, 9223372036854775807u64) {
            Some(v) => {
                proof {
                    assert(s@.skip(0) =~= s@);
                }
                Some(v as i64)
            },
            None => {
                proof {
                    assert(s@.skip(0) =~= s@);
                }
                None
            },
        }
    }
}

/// `s.parse::<i32>()`, with the error as `None`.
pub fn parse_i32(s: &Vec<char>) -> (r: Option<i32>)
    ensures
        r == parse_i32_spec(s@),
{
    match parse_i64(s) {
        Some(v) => {
            if v < -2147483648i64 || v > 2147483647i64 {
                None
            } else {
                Some(v as i32)
            }
        },
        None => {
            proof {
                if let Some(x) = parse_int_spec(s@) {
                    assert(!(i64::MIN <= x <= i64::MAX));
                }
            }
            None
        },
    }
}

/// `s.parse::<u8>()`, with the error as `None`.
pub fn parse_u8(s: &Vec<char>) -> (r: Option<u8>)
    ensures
        r == parse_u8_spec(s@),
{
    if s.len() > 0 && s[0] == '-' {
        return None;
    }
    match parse_i64(s) {
        Some(v) => {
            if v < 0 || v > 255 {
                None
            } else {
                Some(v as u8)
            }
        },
        None => {
            proof {
                if let Some(x) = parse_int_spec(s@) {
                    assert(!(i64::MIN <= x <= i64::MAX));
                }
            }
            None
        },
    }
}

/// `s.parse::<i64>()` on a string.
pub fn parse_i64_str(s: &str) -> (r: Option<i64>)
    ensures
        r == parse_i64_spec(s@),
{
    let cs = crate::strutil::str_to_chars(s);
    parse_i64(&cs)
}

} // verus!
