//! The file actions: where an uploaded file comes from, what kind of file it
//! is, and how a stored image is handed back.
use vstd::prelude::*;
use crate::resp::{
    RespError, bad_image_data, bad_image_path, bad_image_url, bad_param, file_not_found, is_error,
    unsupported_param,
};
use crate::hexcode::{hex_decode, hex_decode_spec};
use crate::segment::lit;
use crate::strutil::str_eq;

verus! {

/// Where the content of an uploaded file comes from.
#[derive(Debug)]
pub enum FileSource {
    /// Download it from this URL.
    Url(String),
    /// Read it from this path.
    Path(String),
    /// The request carried it.
    Data(Vec<u8>),
}

/// Where an uploaded file's content comes from, by the request's `type`; a
/// type whose field is missing, or any other type, is an unsupported
/// parameter naming the type.
pub fn file_source(ty: &str, url: Option<String>, path: Option<String>, data: Option<Vec<u8>>) -> (r: Result<
    FileSource,
    RespError,
>)
    ensures
        ty@ == "url"@ && url is Some ==> r == Ok::<FileSource, RespError>(FileSource::Url(url->0)),
        ty@ == "path"@ && path is Some ==> r == Ok::<FileSource, RespError>(FileSource::Path(path->0)),
        ty@ == "data"@ && data is Some ==> r == Ok::<FileSource, RespError>(FileSource::Data(data->0)),
        !(ty@ == "url"@ && url is Some) && !(ty@ == "path"@ && path is Some) && !(ty@ == "data"@
            && data is Some) ==> (r matches Err(e) && is_error(e, 10004, "不支持的动作请求参数"@, ty@)),
{
    proof {
        reveal_strlit("url");
        reveal_strlit("path");
        reveal_strlit("data");
        assert("url"@.len() == 3 && "path"@[0] == 'p' && "data"@[0] == 'd');
    }
    if str_eq(ty, "url") && url.is_some() {
        match url {
            Some(u) => Ok(FileSource::Url(u)),
            None => Err(unsupported_param(ty)),
        }
    } else if str_eq(ty, "path") && path.is_some() {
        match path {
            Some(p) => Ok(FileSource::Path(p)),
            None => Err(unsupported_param(ty)),
        }
    } else if str_eq(ty, "data") && data.is_some() {
        match data {
            Some(d) => Ok(FileSource::Data(d)),
            None => Err(unsupported_param(ty)),
        }
    } else {
        Err(unsupported_param(ty))
    }
}

/// The kinds of file the bot stores.
#[derive(Debug, Clone, Copy, PartialEq, Eq)]
pub enum FileKind {
    Image,
    Voice,
}

/// The kind of an uploaded file by its `file_type`, an image when none is
/// given; any other type is an unsupported parameter naming it.
pub fn upload_kind(file_type: &Option<String>) -> (r: Result<FileKind, RespError>)
    ensures
        match file_type {
            None => r == Ok::<FileKind, RespError>(FileKind::Image),
            Some(t) => if t@ == "image"@ {
                r == Ok::<FileKind, RespError>(FileKind::Image)
            } else if t@ == "voice"@ {
                r == Ok::<FileKind, RespError>(FileKind::Voice)
            } else {
                r matches Err(e) && is_error(e, 10004, "不支持的动作请求参数"@, t@)
            },
        },
{
    proof {
        reveal_strlit("image");
        reveal_strlit("voice");
        assert("image"@[0] == 'i' && "voice"@[0] == 'v');
    }
    match file_type {
        None => Ok(FileKind::Image),
        Some(t) => if str_eq(t.as_str(), "image") {
            Ok(FileKind::Image)
        } else if str_eq(t.as_str(), "voice") {
            Ok(FileKind::Voice)
        } else {
            Err(unsupported_param(t.as_str()))
        },
    }
}

/// Whether a file of `file_type` can be fetched: only images can, and a
/// request without a type asks for an image.
pub fn get_file_kind(file_type: &Option<String>) -> (r: Result<(), RespError>)
    ensures
        match file_type {
            None => r is Ok,
            Some(t) => if t@ == "image"@ {
                r is Ok
            } else {
                r matches Err(e) && is_error(e, 10004, "不支持的动作请求参数"@, t@)
            },
        },
{
    match file_type {
        None => Ok(()),
        Some(t) => if str_eq(t.as_str(), "image") {
            Ok(())
        } else {
            Err(unsupported_param(t.as_str()))
        },
    }
}

/// The database key of a stored file, from its `file_id`: hexadecimal text,
/// else a bad `file_id` parameter.
pub fn file_key(file_id: &str) -> (r: Result<Vec<u8>, RespError>)
    ensures
        match hex_decode_spec(file_id@) {
            Some(k) => r matches Ok(v) && v@ == k,
            None => r matches Err(e) && is_error(e, 10003, "无效的动作请求参数"@, "file_id"@),
        },
{
    match hex_decode(file_id) {
        Some(k) => Ok(k),
        None => Err(bad_param("file_id")),
    }
}

/// The answer when no file is stored under a key.
pub fn not_stored(file_id: &str) -> (e: RespError)
    ensures
        is_error(e, 32005, "文件不存在"@, file_id@),
{
    file_not_found(file_id)
}

/// How a stored image is handed back.
#[derive(Debug, Clone, Copy, PartialEq, Eq)]
pub enum ImageFetch {
    Url,
    Path,
    Data,
}

/// How a stored image is handed back, by the request's `type`; any other
/// type is an unsupported parameter naming it.
pub fn image_fetch(ty: &str) -> (r: Result<ImageFetch, RespError>)
    ensures
        ty@ == "url"@ ==> r == Ok::<ImageFetch, RespError>(ImageFetch::Url),
        ty@ == "path"@ ==> r == Ok::<ImageFetch, RespError>(ImageFetch::Path),
        ty@ == "data"@ ==> r == Ok::<ImageFetch, RespError>(ImageFetch::Data),
        ty@ != "url"@ && ty@ != "path"@ && ty@ != "data"@ ==> (r matches Err(e) && is_error(
            e,
            10004,
            "不支持的动作请求参数"@,
            ty@,
        )),
{
    proof {
        reveal_strlit("url");
        reveal_strlit("path");
        reveal_strlit("data");
        assert("url"@.len() == 3 && "path"@[0] == 'p' && "data"@[0] == 'd');
    }
    if str_eq(ty, "url") {
        Ok(ImageFetch::Url)
    } else if str_eq(ty, "path") {
        Ok(ImageFetch::Path)
    } else if str_eq(ty, "data") {
        Ok(ImageFetch::Data)
    } else {
        Err(unsupported_param(ty))
    }
}

/// What the program found of a stored image, for the way it is handed back.
#[derive(Debug)]
pub enum ImageFound {
    /// The URL the image is known under, if any.
    Url(Option<String>),
    /// The image's local path, and whether a file is there.
    Path { path: String, exists: bool },
    /// The image's content, if it could be read.
    Data(Option<Vec<u8>>),
}

/// A file handed back: how, its name, and the URL, path or content.
#[derive(Debug)]
pub struct FileReply {
    pub ty: String,
    pub name: String,
    pub url: Option<String>,
    pub path: Option<String>,
    pub data: Option<Vec<u8>>,
}

/// The reply for a stored image named `name`: its URL, its path when the file
/// is there, or its content when it could be read; else an error naming the
/// image.
pub fn image_reply(name: String, found: ImageFound) -> (r: Result<FileReply, RespError>)
    ensures
        match found {
            ImageFound::Url(Some(u)) => r matches Ok(f) && f.ty@ == "url"@ && f.name == name && f.url
                == Some(u) && f.path is None && f.data is None,
            ImageFound::Url(None) => r matches Err(e) && is_error(e, 41002, "图片URL错误"@, name@),
            ImageFound::Path { path, exists } => if exists {
                r matches Ok(f) && f.ty@ == "path"@ && f.name == name && f.path == Some(path) && f.url is None
                    && f.data is None
            } else {
                r matches Err(e) && is_error(e, 41003, "图片路径错误"@, name@)
            },
            ImageFound::Data(Some(d)) => r matches Ok(f) && f.ty@ == "data"@ && f.name == name && f.data
                == Some(d) && f.url is None && f.path is None,
            ImageFound::Data(None) => r matches Err(e) && is_error(e, 41004, "图片内容错误"@, name@),
        },
{
    match found {
        ImageFound::Url(Some(u)) => Ok(FileReply { ty: lit("url"), name, url: Some(u), path: None, data: None }),
        ImageFound::Url(None) => Err(bad_image_url(name.as_str())),
        ImageFound::Path { path, exists } => if exists {
            Ok(FileReply { ty: lit("path"), name, url: None, path: Some(path), data: None })
        } else {
            Err(bad_image_path(name.as_str()))
        },
        ImageFound::Data(Some(d)) => Ok(FileReply { ty: lit("data"), name, url: None, path: None, data: Some(d) }),
        ImageFound::Data(None) => Err(bad_image_data(name.as_str())),
    }
}

/// The protocols a file can be downloaded with.
#[derive(Debug, Clone, Copy, PartialEq, Eq)]
pub enum HttpScheme {
    Http,
    Https,
}

/// The protocol to download a URL with, by its scheme; any other scheme, or
/// none, cannot be downloaded.
pub fn http_scheme(scheme: Option<&str>) -> (r: Result<HttpScheme, &'static str>)
    ensures
        match scheme {
            Some(s) => if s@ == "http"@ {
                r == Ok::<HttpScheme, &'static str>(HttpScheme::Http)
            } else if s@ == "https"@ {
                r == Ok::<HttpScheme, &'static str>(HttpScheme::Https)
            } else {
                r matches Err(m) && m@ == "url协议未知"@
            },
            None => r matches Err(m) && m@ == "url协议未知"@,
        },
{
    proof {
        reveal_strlit("http");
        reveal_strlit("https");
        assert("http"@.len() == 4 && "https"@.len() == 5);
    }
    match scheme {
        Some(s) => if str_eq(s, "http") {
            Ok(HttpScheme::Http)
        } else if str_eq(s, "https") {
            Ok(HttpScheme::Https)
        } else {
            Err("url协议未知")
        },
        None => Err("url协议未知"),
    }
}

} // verus!
