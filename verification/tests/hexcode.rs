use walle_q::hexcode::{hex_decode, hex_encode, hex_media_id, media_id};

#[test]
fn hex_encode_is_lowercase_pairs() {
    assert_eq!(hex_encode(&[0xde, 0xad, 0x01]), "dead01");
    assert_eq!(hex_encode(&[]), "");
}

#[test]
fn hex_decode_reads_both_cases() {
    assert_eq!(hex_decode("DEad01"), Some(vec![0xde, 0xad, 0x01]));
}

#[test]
fn hex_decode_rejects_bad_text() {
    assert_eq!(hex_decode("abc"), None);
    assert_eq!(hex_decode("zz"), None);
}

#[test]
fn hex_roundtrip() {
    let bytes: Vec<u8> = (0..=255).collect();
    assert_eq!(hex_decode(&hex_encode(&bytes)), Some(bytes));
}

#[test]
fn media_id_is_md5_then_big_endian_size() {
    assert_eq!(media_id(&[1, 2], 0x01020304), vec![1, 2, 1, 2, 3, 4]);
    assert_eq!(hex_media_id(&[0xff], 5), "ff00000005");
}
