use walle_q::message_id::{decode_message_id, new_group_message_id, new_private_message_id};

#[test]
fn group_message_id_joins_code_seqs_and_rands() {
    let id = new_group_message_id(123456, vec![1, 2], vec![-3, 4]);
    assert_eq!(id, "123456 1-2 -3-4");
}

#[test]
fn private_message_id_ends_with_time() {
    let id = new_private_message_id(10001, 1650000000, vec![7], vec![8, 9]);
    assert_eq!(id, "10001 7 8-9 1650000000");
}

#[test]
fn group_message_id_decodes_back() {
    let id = new_group_message_id(-42, vec![5, 6, 7], vec![100]);
    let (target, seqs, rands, time) = decode_message_id(&id).unwrap();
    assert_eq!(target, -42);
    assert_eq!(seqs, vec![5, 6, 7]);
    assert_eq!(rands, vec![100]);
    assert_eq!(time, None);
}

#[test]
fn private_message_id_decodes_back() {
    let id = new_private_message_id(987654321, -5, vec![0], vec![2147483647]);
    let (target, seqs, rands, time) = decode_message_id(&id).unwrap();
    assert_eq!(target, 987654321);
    assert_eq!(seqs, vec![0]);
    assert_eq!(rands, vec![2147483647]);
    assert_eq!(time, Some(-5));
}

#[test]
fn decode_rejects_too_few_parts() {
    let e = decode_message_id("123 4").unwrap_err();
    assert_eq!(e.retcode, 10003);
    assert_eq!(e.message, "无效的动作请求参数:message_id decode failed");
}

#[test]
fn decode_rejects_non_numbers() {
    assert!(decode_message_id("abc 1 2").is_err());
    assert!(decode_message_id("1 x 2").is_err());
    assert!(decode_message_id("1 2 3 t").is_err());
    assert!(decode_message_id("1 99999999999 2").is_err());
}

#[test]
fn decode_ignores_parts_after_the_time() {
    let (t, s, r, tm) = decode_message_id("1 2 3 4 5").unwrap();
    assert_eq!((t, s, r, tm), (1, vec![2], vec![3], Some(4)));
}
