//! Files uploaded in fragments: a client announces the file, sends its pieces
//! in any order, and finishes with the file's SHA-256.  The pieces are put
//! together by offset, and the whole must have the announced size and hash.
use vstd::prelude::*;
use crate::decimal::{int_chars, i64_to_string};
use crate::hexcode::{hex_decode, hex_decode_spec, hex_encode, hex_encode_spec};
use crate::resp::{
    RespError, bad_param, file_sha256_not_match, file_total_size_not_match, is_error,
    prepare_file_first,
};
use crate::strutil::{push_char, push_chars, str_to_chars};
use sha2::Digest;

verus! {

broadcast use vstd::seq_lib::group_to_multiset_ensures;

/// A file being uploaded in fragments: its announced size, and the offset and
/// size of each fragment received, in the order they came.
#[derive(Debug)]
pub struct FragmentFile {
    pub total_size: i64,
    pub files: Vec<(i64, i64)>,
}

/// The identifier of a fragmented upload: the file's name, a hyphen, and its
/// announced size.
pub open spec fn fragment_file_id_spec(name: Seq<char>, total_size: i64) -> Seq<char> {
    name + seq!['-'] + int_chars(total_size as int)
}

/// The identifier under which the fragments of file `name` are collected.
pub fn fragment_file_id(name: &str, total_size: i64) -> (s: String)
    ensures
        s@ == fragment_file_id_spec(name@, total_size),
{
    let mut s = String::from_str(name);
    push_char(&mut s, '-');
    let n = i64_to_string(total_size);
    let cs = str_to_chars(n.as_str());
    push_chars(&mut s, &cs);
    proof {
        assert(s@ =~= fragment_file_id_spec(name@, total_size));
    }
    s
}

impl FragmentFile {
    /// A file of `total_size` bytes announced, with no fragment yet.
    pub fn new(total_size: i64) -> (f: FragmentFile)
        ensures
            f.total_size == total_size,
            f.files@.len() == 0,
    {
        FragmentFile { total_size, files: Vec::new() }
    }

    /// Records the fragment of `size` bytes at `offset`.
    pub fn add(&mut self, offset: i64, size: i64)
        ensures
            final(self).total_size == old(self).total_size,
            final(self).files@ == old(self).files@.push((offset, size)),
    {
        self.files.push((offset, size));
    }
}

/// The answer to a fragment sent for a file that was not announced, or whose
/// announcement has expired.
pub fn transfer_result(announced: bool, file_id: &str) -> (r: Result<(), RespError>)
    ensures
        announced ==> r is Ok,
        !announced ==> (r matches Err(e) && is_error(e, 32006, "请先准备文件"@, file_id@)),
{
    if announced {
        Ok(())
    } else {
        Err(prepare_file_first(file_id))
    }
}

/// The order of fragments: by offset, then by size.
pub open spec fn part_le(a: (i64, i64), b: (i64, i64)) -> bool {
    a.0 < b.0 || (a.0 == b.0 && a.1 <= b.1)
}

/// Whether the fragments are in order.
pub open spec fn parts_sorted(s: Seq<(i64, i64)>) -> bool {
    forall|i: int, j: int| 0 <= i < j < s.len() ==> part_le(s[i], s[j])
}

fn part_lt(a: (i64, i64), b: (i64, i64)) -> (r: bool)
    ensures
        r == !part_le(b, a),
{
    a.0 < b.0 || (a.0 == b.0 && a.1 < b.1)
}

/// The fragments in order of offset (then size): the same fragments, each as
/// often as it was received.
pub fn sorted_parts(parts: &Vec<(i64, i64)>) -> (r: Vec<(i64, i64)>)
    ensures
        parts_sorted(r@),
        r@.to_multiset() == parts@.to_multiset(),
{
    let mut r: Vec<(i64, i64)> = Vec::new();
    let n = parts.len();
    let mut i: usize = 0;
    while i < n
        invariant
            n == parts@.len(),
            i <= n,
            parts_sorted(r@),
            r@.to_multiset() == parts@.take(i as int).to_multiset(),
        decreases n - i,
    {
        let x = parts[i];
        let m = r.len();
        let mut pos: usize = 0;
        while pos < m && !part_lt(x, r[pos])
            invariant
                m == r@.len(),
                pos <= m,
                forall|k: int| 0 <= k < pos ==> part_le(#[trigger] r@[k], x),
            decreases m - pos,
        {
            pos = pos + 1;
        }
        let ghost before = r@;
        r.insert(pos, x);
        proof {
            assert(r@ == before.insert(pos as int, x));
            assert forall|a: int, b: int| 0 <= a < b < r@.len() implies part_le(r@[a], r@[b]) by {
                if b < pos {
                    assert(r@[a] == before[a] && r@[b] == before[b]);
                } else if b == pos {
                    assert(r@[a] == before[a]);
                } else if a == pos {
                    assert(r@[b] == before[b - 1]);
                    assert(part_le(x, before[pos as int]));
                    if b - 1 > pos {
                        assert(part_le(before[pos as int], before[b - 1]));
                    }
                } else if a < pos {
                    assert(r@[a] == before[a] && r@[b] == before[b - 1]);
                } else {
                    assert(r@[a] == before[a - 1] && r@[b] == before[b - 1]);
                }
            }
            assert(parts@.take(i + 1) =~= parts@.take(i as int).push(x));
        }
        i = i + 1;
    }
    assert(parts@.take(n as int) =~= parts@);
    r
}

/// Two lists of fragments in order that hold the same fragments, each as
/// often, are the same list.
pub proof fn lemma_sorted_unique(a: Seq<(i64, i64)>, b: Seq<(i64, i64)>)
    requires
        parts_sorted(a),
        parts_sorted(b),
        a.to_multiset() == b.to_multiset(),
    ensures
        a == b,
    decreases a.len(),
{
    broadcast use vstd::multiset::group_multiset_axioms;

    assert(a.len() == a.to_multiset().len());
    assert(b.len() == b.to_multiset().len());
    if a.len() == 0 {
        assert(a =~= b);
    } else {
        let x = a[0];
        let y = b[0];
        assert(a.to_multiset().count(x) > 0) by {
            assert(a.contains(x));
        }
        assert(b.contains(x));
        let j = choose|j: int| 0 <= j < b.len() && b[j] == x;
        assert(part_le(y, x)) by {
            if j > 0 {
                assert(part_le(b[0], b[j]));
            }
        }
        assert(b.to_multiset().count(y) > 0) by {
            assert(b.contains(y));
        }
        assert(a.contains(y));
        let i = choose|i: int| 0 <= i < a.len() && a[i] == y;
        assert(part_le(x, y)) by {
            if i > 0 {
                assert(part_le(a[0], a[i]));
            }
        }
        assert(x == y);
        assert(a.remove(0) =~= a.drop_first());
        assert(b.remove(0) =~= b.drop_first());
        assert(a.drop_first().to_multiset() == a.to_multiset().remove(x));
        assert(b.drop_first().to_multiset() == b.to_multiset().remove(y));
        lemma_sorted_unique(a.drop_first(), b.drop_first());
        assert(a =~= b) by {
            assert forall|k: int| 0 <= k < a.len() implies a[k] == b[k] by {
                if k > 0 {
                    assert(a[k] == a.drop_first()[k - 1]);
                    assert(b[k] == b.drop_first()[k - 1]);
                }
            }
        }
    }
}

/// Fragments put in order give the same list whatever order they came in.
pub proof fn lemma_arrival_order_irrelevant(
    got1: Seq<(i64, i64)>,
    got2: Seq<(i64, i64)>,
    sorted1: Seq<(i64, i64)>,
    sorted2: Seq<(i64, i64)>,
)
    requires
        got1.to_multiset() == got2.to_multiset(),
        parts_sorted(sorted1),
        sorted1.to_multiset() == got1.to_multiset(),
        parts_sorted(sorted2),
        sorted2.to_multiset() == got2.to_multiset(),
    ensures
        sorted1 == sorted2,
{
    lemma_sorted_unique(sorted1, sorted2);
}

/// The sum of the fragments' sizes.
pub open spec fn parts_size(s: Seq<(i64, i64)>) -> int
    decreases s.len(),
{
    if s.len() == 0 {
        0
    } else {
        parts_size(s.drop_last()) + s.last().1
    }
}

/// Whether adding up the sizes in order never leaves the range of `i64`.
pub open spec fn sizes_fit(s: Seq<(i64, i64)>) -> bool {
    forall|k: int| 0 <= k <= s.len() ==> i64::MIN <= #[trigger] parts_size(s.take(k)) <= i64::MAX
}

/// The sum of the fragments' sizes.
pub fn total_of(parts: &Vec<(i64, i64)>) -> (t: i64)
    requires
        sizes_fit(parts@),
    ensures
        t == parts_size(parts@),
{
    let mut t: i64 = 0;
    let n = parts.len();
    let mut i: usize = 0;
    assert(parts@.take(0) =~= Seq::<(i64, i64)>::empty());
    while i < n
        invariant
            n == parts@.len(),
            i <= n,
            sizes_fit(parts@),
            t == parts_size(parts@.take(i as int)),
        decreases n - i,
    {
        assert(parts@.take(i + 1).drop_last() =~= parts@.take(i as int));
        assert(i64::MIN <= parts_size(parts@.take(i + 1)) <= i64::MAX);
        t = t + parts[i].1;
        i = i + 1;
    }
    assert(parts@.take(n as int) =~= parts@);
    t
}

/// The text `get <got> of <expected>` of the finishing errors.
pub open spec fn got_of(got: Seq<char>, expected: Seq<char>) -> Seq<char> {
    "get "@ + got + " of "@ + expected
}

fn got_of_text(got: &str, expected: &str) -> (s: String)
    ensures
        s@ == got_of(got@, expected@),
{
    let mut s = String::from_str("get ");
    let g = str_to_chars(got);
    push_chars(&mut s, &g);
    let of = str_to_chars(" of ");
    push_chars(&mut s, &of);
    let e = str_to_chars(expected);
    push_chars(&mut s, &e);
    proof {
        reveal_strlit("get ");
        reveal_strlit(" of ");
        assert(s@ =~= got_of(got@, expected@));
    }
    s
}

/// The hash named in a finishing request, as bytes; text that is not
/// hexadecimal is a bad `sha256` parameter.
pub fn decode_sha256(sha256: &str) -> (r: Result<Vec<u8>, RespError>)
    ensures
        match hex_decode_spec(sha256@) {
            Some(b) => r matches Ok(v) && v@ == b,
            None => r matches Err(e) && is_error(e, 10003, "无效的动作请求参数"@, "sha256"@),
        },
{
    match hex_decode(sha256) {
        Some(v) => Ok(v),
        None => Err(bad_param("sha256")),
    }
}

/// The fragments of an announced file, in order; a file not announced (or
/// expired) cannot be finished.
pub fn finish_parts(entry: Option<FragmentFile>, file_id: &str) -> (r: Result<(i64, Vec<(i64, i64)>), RespError>)
    ensures
        match entry {
            None => r matches Err(e) && is_error(e, 32006, "请先准备文件"@, file_id@),
            Some(f) => r matches Ok((t, parts)) && t == f.total_size && parts_sorted(parts@)
                && parts@.to_multiset() == f.files@.to_multiset(),
        },
{
    match entry {
        None => Err(prepare_file_first(file_id)),
        Some(f) => Ok((f.total_size, sorted_parts(&f.files))),
    }
}

/// The SHA-256 of some bytes.
pub uninterp spec fn sha256_of(data: Seq<u8>) -> Seq<u8>;

/// The SHA-256 digest of `data`, as `sha2::Sha256` computes it: default
/// state, one `update` with all of `data`, `finalize`.  The digest is 32
/// bytes long.
#[verifier::external_body]
fn sha256_digest(data: &[u8]) -> (d: Vec<u8>)
    ensures
        d@ == sha256_of(data@),
        d@.len() == 32,
{
    let mut h = sha2::Sha256::default();
    h.update(data);
    h.finalize().to_vec()
}

/// Checks a finished file: the fragments' sizes must add up to the announced
/// size, then the content must have the announced hash.
pub fn check_fragments(parts: &Vec<(i64, i64)>, total_size: i64, data: &[u8], sha: &Vec<u8>) -> (r: Result<(), RespError>)
    requires
        sizes_fit(parts@),
    ensures
        parts_size(parts@) != total_size ==> (r matches Err(e) && is_error(
            e,
            32007,
            "文件大小不匹配"@,
            got_of(int_chars(parts_size(parts@)), int_chars(total_size as int)),
        )),
        parts_size(parts@) == total_size && sha256_of(data@) != sha@ ==> (r matches Err(e) && is_error(
            e,
            32008,
            "文件 sha256 不匹配"@,
            got_of(hex_encode_spec(sha256_of(data@)), hex_encode_spec(sha@)),
        )),
        parts_size(parts@) == total_size && sha256_of(data@) == sha@ ==> r is Ok,
{
    let got = total_of(parts);
    if got != total_size {
        let g = i64_to_string(got);
        let t = i64_to_string(total_size);
        let detail = got_of_text(g.as_str(), t.as_str());
        return Err(file_total_size_not_match(detail.as_str()));
    }
    let digest = sha256_digest(data);
    if !bytes_eq(&digest, sha) {
        let g = hex_encode(digest.as_slice());
        let t = hex_encode(sha.as_slice());
        let detail = got_of_text(g.as_str(), t.as_str());
        return Err(file_sha256_not_match(detail.as_str()));
    }
    Ok(())
}

/// Whether two byte vectors are equal.
pub fn bytes_eq(a: &Vec<u8>, b: &Vec<u8>) -> (r: bool)
    ensures
        r == (a@ == b@),
{
    if a.len() != b.len() {
        return false;
    }
    let mut i: usize = 0;
    while i < a.len()
        invariant
            a@.len() == b@.len(),
            i <= a@.len(),
            forall|k: int| 0 <= k < i ==> a@[k] == b@[k],
        decreases a.len() - i,
    {
        if a[i] != b[i] {
            return false;
        }
        i = i + 1;
    }
    assert(a@ =~= b@);
    true
}

/// The head of a file fetched in fragments: its name, its size and the
/// hexadecimal SHA-256 of its content.
#[derive(Debug)]
pub struct FileFragmentedHead {
    pub name: String,
    pub total_size: i64,
    pub sha256: String,
}

/// The head of a stored image fetched in fragments, from its file name, its
/// size and its content.
pub fn fragmented_head(name: String, size: u32, data: &[u8]) -> (h: FileFragmentedHead)
    ensures
        h.name == name,
        h.total_size == size as i64,
        h.sha256@ == hex_encode_spec(sha256_of(data@)),
{
    let digest = sha256_digest(data);
    FileFragmentedHead { name, total_size: size as i64, sha256: hex_encode(digest.as_slice()) }
}

/// Where the piece of a file at `offset` of `size` bytes begins and ends in
/// a file of `len` bytes: a negative offset or size counts as 0, and the
/// piece is cut at the end of the file.
pub open spec fn piece_bounds(len: int, offset: int, size: int) -> (int, int) {
    let start = if offset < 0 { 0 } else if offset > len { len } else { offset };
    let want = if size < 0 { 0 } else { size };
    let end = if start + want > len { len } else { start + want };
    (start, end)
}

/// The piece of `data` at `offset` of at most `size` bytes.
pub fn file_piece(data: &Vec<u8>, offset: i64, size: i64) -> (r: Vec<u8>)
    ensures
        r@ == data@.subrange(
            piece_bounds(data@.len() as int, offset as int, size as int).0,
            piece_bounds(data@.len() as int, offset as int, size as int).1,
        ),
{
    let len = data.len();
    let start: usize = if offset < 0 {
        0
    } else if offset as u64 > len as u64 {
        len
    } else {
        offset as usize
    };
    let want: u64 = if size < 0 { 0 } else { size as u64 };
    let end: usize = if want > (len - start) as u64 { len } else { start + want as usize };
    let mut r: Vec<u8> = Vec::new();
    let mut i: usize = start;
    while i < end
        invariant
            start <= i <= end <= data@.len(),
            r@ == data@.subrange(start as int, i as int),
        decreases end - i,
    {
        r.push(data[i]);
        assert(data@.subrange(start as int, i + 1) =~= data@.subrange(start as int, i as int).push(data@[i as int]));
        i = i + 1;
    }
    r
}

} // verus!
