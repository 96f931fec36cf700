use walle_q::files::{http_scheme, HttpScheme};
use walle_q::files::{
    file_key, file_source, get_file_kind, image_fetch, image_reply, not_stored, upload_kind, FileKind, FileSource,
    ImageFetch, ImageFound,
};

#[test]
fn upload_sources() {
    assert!(matches!(file_source("url", Some("u".into()), None, None), Ok(FileSource::Url(u)) if u == "u"));
    assert!(matches!(file_source("path", None, Some("p".into()), None), Ok(FileSource::Path(p)) if p == "p"));
    assert!(matches!(file_source("data", None, None, Some(vec![1])), Ok(FileSource::Data(d)) if d == vec![1]));
    let e = file_source("url", None, Some("p".into()), None).unwrap_err();
    assert_eq!((e.retcode, e.message.as_str()), (10004, "不支持的动作请求参数:url"));
    assert_eq!(file_source("ftp", None, None, None).unwrap_err().message, "不支持的动作请求参数:ftp");
}

#[test]
fn file_kinds() {
    assert_eq!(upload_kind(&None).unwrap(), FileKind::Image);
    assert_eq!(upload_kind(&Some("voice".into())).unwrap(), FileKind::Voice);
    assert_eq!(upload_kind(&Some("video".into())).unwrap_err().message, "不支持的动作请求参数:video");
    assert!(get_file_kind(&None).is_ok());
    assert!(get_file_kind(&Some("voice".into())).is_err());
}

#[test]
fn stored_image_lookup() {
    assert_eq!(file_key("0102").unwrap(), vec![1, 2]);
    assert_eq!(file_key("nothex").unwrap_err().message, "无效的动作请求参数:file_id");
    assert_eq!(not_stored("abc").message, "文件不存在:abc");
    assert_eq!(image_fetch("path").unwrap(), ImageFetch::Path);
    assert_eq!(image_fetch("bytes").unwrap_err().message, "不支持的动作请求参数:bytes");
}

#[test]
fn image_replies() {
    let r = image_reply("a.jpg".into(), ImageFound::Url(Some("http://u".into()))).unwrap();
    assert_eq!((r.ty.as_str(), r.name.as_str(), r.url.as_deref()), ("url", "a.jpg", Some("http://u")));
    let e = image_reply("a.jpg".into(), ImageFound::Url(None)).unwrap_err();
    assert_eq!((e.retcode, e.message.as_str()), (41002, "图片URL错误:a.jpg"));
    let e = image_reply("a.jpg".into(), ImageFound::Path { path: "p".into(), exists: false }).unwrap_err();
    assert_eq!(e.retcode, 41003);
    let r = image_reply("a.jpg".into(), ImageFound::Data(Some(vec![9]))).unwrap();
    assert_eq!(r.data, Some(vec![9]));
    assert_eq!(image_reply("a.jpg".into(), ImageFound::Data(None)).unwrap_err().retcode, 41004);
}

#[test]
fn download_schemes() {
    assert_eq!(http_scheme(Some("http")).unwrap(), HttpScheme::Http);
    assert_eq!(http_scheme(Some("https")).unwrap(), HttpScheme::Https);
    assert_eq!(http_scheme(Some("ftp")).unwrap_err(), "url协议未知");
    assert_eq!(http_scheme(None).unwrap_err(), "url协议未知");
}
