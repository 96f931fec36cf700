use walle_q::database::{content_file_id, stored_message};
use walle_q::database::{first_hit, first_message, flush_step, image_path, Backend, LocalVoice, WQDatabase};
use walle_q::resp::bad_param;

const EMPTY_MD5: [u8; 16] = [
    0xd4, 0x1d, 0x8c, 0xd9, 0x8f, 0x00, 0xb2, 0x04, 0xe9, 0x80, 0x09, 0x98, 0xec, 0xf8, 0x42, 0x7e,
];

#[test]
fn test_empty_md5() {
    let v = LocalVoice::from_data(b"");
    assert_eq!(v.md5, EMPTY_MD5.to_vec());
    assert_eq!(v.size, 0);
}

#[test]
fn voice_file_is_named_by_its_id() {
    let v = LocalVoice::from_data(b"abc");
    assert_eq!(v.size, 3);
    assert_eq!(v.hex_voice_id(), "900150983cd24fb0d6963f7d28e17f7200000003");
    assert_eq!(v.path(), "./data/voice/900150983cd24fb0d6963f7d28e17f7200000003");
    assert_eq!(image_path(&[1, 2], 258), "./data/image/010200000102");
}

#[test]
fn stores_are_added_in_order() {
    let d = WQDatabase::default();
    assert!(!d.not_empty());
    let d = d.level().sled();
    assert_eq!(d.backends, vec![Backend::Level, Backend::Sled]);
    assert!(d.not_empty());
}

#[test]
fn read_stops_at_first_answer() {
    let r: Result<Option<i32>, _> = first_hit(vec![Ok(None), Ok(Some(2)), Ok(Some(3))]);
    assert_eq!(r.unwrap(), Some(2));
    let r: Result<Option<i32>, _> = first_hit(vec![Ok(None), Err(bad_param("x")), Ok(Some(3))]);
    assert_eq!(r.unwrap_err().message, "无效的动作请求参数:x");
    let r: Result<Option<i32>, _> = first_hit(vec![Ok(None), Ok(None)]);
    assert_eq!(r.unwrap(), None);
}

#[test]
fn stored_files_and_messages() {
    assert_eq!(content_file_id(b""), "d41d8cd98f00b204e9800998ecf8427e00000000");
    assert_eq!(stored_message("m", Some(3)).unwrap(), 3);
    let e = stored_message::<i32>("m", None).unwrap_err();
    assert_eq!((e.retcode, e.message.as_str()), (35001, "消息不存在:m"));
}

#[test]
fn leveldb_flushes_every_twelfth_write() {
    let mut count = 0;
    let mut flushed = Vec::new();
    for k in 1..=30 {
        let (flush, next) = flush_step(count);
        if flush {
            flushed.push(k);
        }
        count = next;
    }
    assert_eq!(flushed, vec![12, 24]);
}

#[test]
fn message_read_passes_over_failing_stores() {
    let answers: Vec<Result<Option<i32>, _>> = vec![Err(bad_param("x")), Ok(None), Ok(Some(7)), Ok(Some(8))];
    assert_eq!(first_message(answers), Some(7));
    let none: Vec<Result<Option<i32>, _>> = vec![Err(bad_param("x")), Ok(None)];
    assert_eq!(first_message(none), None);
}
