use walle_q::fragment::{
    check_fragments, decode_sha256, file_piece, finish_parts, fragment_file_id, fragmented_head, sorted_parts, total_of,
    transfer_result, FragmentFile,
};

const ABC_SHA256: &str = "ba7816bf8f01cfea414140de5dae2223b00361a396177a9cb410ff61f20015ad";

#[test]
fn file_id_is_name_dash_size() {
    assert_eq!(fragment_file_id("a.png", 1024), "a.png-1024");
    assert_eq!(fragment_file_id("", -1), "--1");
}

#[test]
fn fragments_are_recorded_and_sorted() {
    let mut f = FragmentFile::new(3);
    f.add(2, 1);
    f.add(0, 1);
    f.add(1, 1);
    f.add(0, 0);
    assert_eq!(f.files, vec![(2, 1), (0, 1), (1, 1), (0, 0)]);
    assert_eq!(sorted_parts(&f.files), vec![(0, 0), (0, 1), (1, 1), (2, 1)]);
    let (total, parts) = finish_parts(Some(f), "x").unwrap();
    assert_eq!(total, 3);
    assert_eq!(parts.len(), 4);
    assert_eq!(total_of(&parts), 3);
}

#[test]
fn unannounced_file_cannot_take_fragments() {
    assert!(transfer_result(true, "f").is_ok());
    let e = transfer_result(false, "f").unwrap_err();
    assert_eq!((e.retcode, e.message.as_str()), (32006, "请先准备文件:f"));
    let e = finish_parts(None, "g").unwrap_err();
    assert_eq!(e.message, "请先准备文件:g");
}

#[test]
fn finished_file_is_checked_for_size_then_hash() {
    let sha = decode_sha256(ABC_SHA256).unwrap();
    assert!(check_fragments(&vec![(0, 2), (2, 1)], 3, b"abc", &sha).is_ok());
    let e = check_fragments(&vec![(0, 2)], 3, b"abc", &sha).unwrap_err();
    assert_eq!((e.retcode, e.message.as_str()), (32007, "文件大小不匹配:get 2 of 3"));
    let e = check_fragments(&vec![(0, 3)], 3, b"abd", &sha).unwrap_err();
    assert_eq!(e.retcode, 32008);
    assert!(e.message.ends_with(&format!(" of {}", ABC_SHA256)));
    assert!(e.message.starts_with("文件 sha256 不匹配:get "));
}

#[test]
fn hash_must_be_hex() {
    let e = decode_sha256("xyz").unwrap_err();
    assert_eq!(e.message, "无效的动作请求参数:sha256");
}

#[test]
fn fragmented_head_carries_hash() {
    let h = fragmented_head("p.png".to_string(), 3, b"abc");
    assert_eq!(h.name, "p.png");
    assert_eq!(h.total_size, 3);
    assert_eq!(h.sha256, ABC_SHA256);
}

#[test]
fn arrival_order_does_not_matter() {
    let a = vec![(4, 1), (0, 2), (2, 2), (0, 1)];
    let b = vec![(0, 1), (2, 2), (4, 1), (0, 2)];
    assert_eq!(sorted_parts(&a), sorted_parts(&b));
}

#[test]
fn pieces_of_a_file() {
    let d = vec![1u8, 2, 3, 4, 5];
    assert_eq!(file_piece(&d, 1, 2), vec![2, 3]);
    assert_eq!(file_piece(&d, 3, 10), vec![4, 5]);
    assert_eq!(file_piece(&d, -4, 2), vec![1, 2]);
    assert_eq!(file_piece(&d, 9, 2), Vec::<u8>::new());
    assert_eq!(file_piece(&d, 2, -1), Vec::<u8>::new());
    assert_eq!(file_piece(&d, 0, i64::MAX), d);
}
