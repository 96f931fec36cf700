//! Hexadecimal text of bytes, through the `hex` crate, and the identifiers of
//! stored images and voices built from it.
use vstd::prelude::*;

verus! {

/// The lowercase hexadecimal digit of `d` (0 to 15).
pub open spec fn hex_digit_char(d: int) -> char {
    if d < 10 {
        (48 + d) as char
    } else {
        (87 + d) as char
    }
}

/// Two lowercase hexadecimal digits per byte, high nibble first.
pub open spec fn hex_encode_spec(b: Seq<u8>) -> Seq<char>
    decreases b.len(),
{
    if b.len() == 0 {
        Seq::<char>::empty()
    } else {
        hex_encode_spec(b.drop_last()) + seq![
            hex_digit_char((b.last() / 16) as int),
            hex_digit_char((b.last() % 16) as int),
        ]
    }
}

/// The value of a hexadecimal digit, upper or lower case.
pub open spec fn hex_val(c: char) -> Option<u8> {
    let v = c as int;
    if 48 <= v <= 57 {
        Some((v - 48) as u8)
    } else if 97 <= v <= 102 {
        Some((v - 87) as u8)
    } else if 65 <= v <= 70 {
        Some((v - 55) as u8)
    } else {
        None
    }
}

/// The bytes a hexadecimal text stands for: an even number of hexadecimal
/// digits, two per byte, high nibble first.
pub open spec fn hex_decode_spec(s: Seq<char>) -> Option<Seq<u8>> {
    if s.len() % 2 == 0 && forall|i: int| 0 <= i < s.len() ==> #[trigger] hex_val(s[i]) is Some {
        Some(
            Seq::new(
                s.len() / 2,
                |i: int| (hex_val(s[2 * i]).unwrap() * 16 + hex_val(s[2 * i + 1]).unwrap()) as u8,
            ),
        )
    } else {
        None
    }
}

/// `hex::encode` of the `hex` crate: its source writes each byte as two
/// lowercase digits from the table `0123456789abcdef`, high nibble first.
#[verifier::external_body]
pub fn hex_encode(data: &[u8]) -> (s: String)
    ensures
        s@ == hex_encode_spec(data@),
{
    hex::encode(data)
}

/// `hex::decode` of the `hex` crate, with its error as `None`: its source
/// fails on an odd length and on any byte that is not `0-9`, `a-f` or `A-F`,
/// and otherwise joins each pair of digits into a byte, high nibble first.
/// The contract speaks of characters: a text with a character outside ASCII
/// fails either way.
#[verifier::external_body]
pub fn hex_decode(s: &str) -> (r: Option<Vec<u8>>)
    ensures
        r matches Some(v) ==> hex_decode_spec(s@) == Some(v@),
        r is None ==> hex_decode_spec(s@) is None,
{
    hex::decode(s).ok()
}

proof fn lemma_hex_encode_len(b: Seq<u8>)
    ensures
        hex_encode_spec(b).len() == 2 * b.len(),
    decreases b.len(),
{
    if b.len() > 0 {
        lemma_hex_encode_len(b.drop_last());
    }
}

proof fn lemma_hex_encode_index(b: Seq<u8>, i: int)
    requires
        0 <= i < b.len(),
    ensures
        hex_encode_spec(b)[2 * i] == hex_digit_char((b[i] / 16) as int),
        hex_encode_spec(b)[2 * i + 1] == hex_digit_char((b[i] % 16) as int),
    decreases b.len(),
{
    lemma_hex_encode_len(b.drop_last());
    if i < b.len() - 1 {
        lemma_hex_encode_index(b.drop_last(), i);
    }
}

/// Decoding the hexadecimal text of some bytes gives the bytes back.
pub proof fn lemma_hex_roundtrip(b: Seq<u8>)
    ensures
        hex_decode_spec(hex_encode_spec(b)) == Some(b),
{
    let s = hex_encode_spec(b);
    lemma_hex_encode_len(b);
    assert forall|k: int| 0 <= k < s.len() implies #[trigger] hex_val(s[k]) is Some by {
        let i = k / 2;
        lemma_hex_encode_index(b, i);
        if k % 2 == 0 {
            assert(k == 2 * i);
        } else {
            assert(k == 2 * i + 1);
        }
    }
    let d = Seq::new(
        s.len() / 2,
        |i: int| (hex_val(s[2 * i]).unwrap() * 16 + hex_val(s[2 * i + 1]).unwrap()) as u8,
    );
    assert forall|i: int| 0 <= i < b.len() implies d[i] == b[i] by {
        lemma_hex_encode_index(b, i);
        assert(b[i] == (b[i] / 16) * 16 + b[i] % 16);
    }
    assert(d =~= b);
}

/// The four bytes of `n`, most significant first.
pub open spec fn be_bytes_u32(n: u32) -> Seq<u8> {
    seq![
        (n / 16777216) as u8,
        ((n / 65536) % 256) as u8,
        ((n / 256) % 256) as u8,
        (n % 256) as u8,
    ]
}

/// The key a stored image or voice is found by: its MD5 followed by its size
/// in four big-endian bytes.
pub open spec fn media_id_spec(md5: Seq<u8>, size: u32) -> Seq<u8> {
    md5 + be_bytes_u32(size)
}

/// The key of a stored image or voice with this MD5 and size.
pub fn media_id(md5: &[u8], size: u32) -> (id: Vec<u8>)
    ensures
        id@ == media_id_spec(md5@, size),
{
    let mut v: Vec<u8> = Vec::new();
    let mut i: usize = 0;
    while i < md5.len()
        invariant
            i <= md5@.len(),
            v@ == md5@.take(i as int),
        decreases md5.len() - i,
    {
        v.push(md5[i]);
        i = i + 1;
        assert(v@ =~= md5@.take(i as int));
    }
    v.push((size / 16777216) as u8);
    v.push(((size / 65536) % 256) as u8);
    v.push(((size / 256) % 256) as u8);
    v.push((size % 256) as u8);
    proof {
        assert(md5@.take(md5@.len() as int) =~= md5@);
        assert(v@ =~= media_id_spec(md5@, size));
    }
    v
}

/// The hexadecimal text of the key of a stored image or voice: the file
/// identifier handed to OneBot clients.
pub fn hex_media_id(md5: &[u8], size: u32) -> (s: String)
    ensures
        s@ == hex_encode_spec(media_id_spec(md5@, size)),
{
    let id = media_id(md5, size);
    hex_encode(id.as_slice())
}

} // verus!
