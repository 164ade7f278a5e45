//! What the server answers: the two handlers it brings itself, the answers
//! to requests that fail, and how a resolved asset is to be sent.

use vstd::prelude::*;
use crate::asset::{AssetView, ErrorView, ResolveError, ResolvedAsset};
use crate::json::{describe, encode_object, is_plain, plain_object_text};
use crate::media::{extension, extension_of, first_media_type, guess_media_type};

verus! {

pub const STATUS_OK: u16 = 200;

pub const STATUS_FORBIDDEN: u16 = 403;

pub const STATUS_METHOD_NOT_ALLOWED: u16 = 405;

pub const STATUS_INTERNAL_SERVER_ERROR: u16 = 500;

/// An answer that is complete as it stands.
#[derive(Debug, PartialEq, Eq)]
pub struct Response {
    pub status: u16,
    pub content_type: String,
    pub body: String,
}

/// A response as the contracts speak of it.
pub ghost struct ResponseView {
    pub status: u16,
    pub content_type: Seq<char>,
    pub body: Seq<char>,
}

impl View for Response {
    type V = ResponseView;

    open spec fn view(&self) -> ResponseView {
        ResponseView { status: self.status, content_type: self.content_type@, body: self.body@ }
    }
}

/// An answer whose body is a file that the caller is to send as it is.
#[derive(Debug, PartialEq, Eq)]
pub struct FileReply {
    pub status: u16,
    pub path: String,
    pub content_type: String,
}

/// A file reply as the contracts speak of it.
pub ghost struct FileReplyView {
    pub status: u16,
    pub path: Seq<char>,
    pub content_type: Seq<char>,
}

impl View for FileReply {
    type V = FileReplyView;

    open spec fn view(&self) -> FileReplyView {
        FileReplyView { status: self.status, path: self.path@, content_type: self.content_type@ }
    }
}

/// How loudly a failed request is to be logged.
#[derive(Clone, Copy, Debug, PartialEq, Eq, Structural)]
pub enum Severity {
    Warning,
    Error,
}

/// The media type of plain text.
pub open spec fn plain_text() -> Seq<char> {
    "text/plain; charset=utf-8"@
}

/// The media type of JSON.
pub open spec fn json_text() -> Seq<char> {
    "application/json"@
}

/// The media type of HTML.
pub open spec fn html_text() -> Seq<char> {
    "text/html"@
}

/// The media type of a file of which nothing more is known.
pub open spec fn octet_stream() -> Seq<char> {
    "application/octet-stream"@
}

/// The answer of the liveness check.
pub open spec fn health_reply() -> ResponseView {
    ResponseView { status: STATUS_OK, content_type: plain_text(), body: "OK"@ }
}

/// The answer that carries a JSON text, or that reports why none could be written.
pub open spec fn json_reply(encoded: Result<Seq<char>, Seq<char>>) -> ResponseView {
    match encoded {
        Ok(text) => ResponseView { status: STATUS_OK, content_type: json_text(), body: text },
        Err(detail) => ResponseView {
            status: STATUS_INTERNAL_SERVER_ERROR,
            content_type: plain_text(),
            body: detail,
        },
    }
}

/// The JSON object whose one member, `message`, is `Hello!`.
pub open spec fn hello_text() -> Seq<char> {
    "{\"message\":\"Hello!\"}"@
}

/// The answer of the greeting: status 200, JSON, and the object whose one
/// member, `message`, is `Hello!`.
pub open spec fn hello_reply() -> ResponseView {
    json_reply(Ok(hello_text()))
}

/// The answer to a request whose path resolved to an error.
pub open spec fn error_reply(error: ErrorView) -> ResponseView {
    match error {
        ErrorView::PathTraversalDenied => ResponseView {
            status: STATUS_FORBIDDEN,
            content_type: plain_text(),
            body: "Forbidden"@,
        },
        ErrorView::IoError(_) => ResponseView {
            status: STATUS_INTERNAL_SERVER_ERROR,
            content_type: plain_text(),
            body: "Internal Server Error"@,
        },
    }
}

/// The answer to a request that no route takes and whose method asks for no asset.
pub open spec fn method_not_allowed_reply() -> ResponseView {
    ResponseView {
        status: STATUS_METHOD_NOT_ALLOWED,
        content_type: plain_text(),
        body: "Method Not Allowed"@,
    }
}

/// The media type to send a file under, given what was guessed for its extension.
pub open spec fn media_type_or_default(guess: Option<Seq<char>>) -> Seq<char> {
    match guess {
        Some(name) => name,
        None => octet_stream(),
    }
}

/// The media type of the file at `path`: guessed from its extension, and a
/// stream of octets where it has none or none that is known.
pub open spec fn media_type_of(path: Seq<char>) -> Seq<char> {
    match extension(path) {
        Some(tail) => media_type_or_default(first_media_type(tail)),
        None => octet_stream(),
    }
}

/// How a resolved asset is sent: a file under the media type of its
/// extension, the fallback document as HTML, both with status 200.
pub open spec fn asset_reply(asset: AssetView) -> FileReplyView {
    match asset {
        AssetView::File(path) => FileReplyView {
            status: STATUS_OK,
            path,
            content_type: media_type_of(path),
        },
        AssetView::Fallback(path) => FileReplyView {
            status: STATUS_OK,
            path,
            content_type: html_text(),
        },
    }
}

/// Answers the liveness check: always the same, whatever else the server holds.
pub fn health_check() -> (out: Response)
    ensures
        out@ == health_reply(),
{
    Response {
        status: STATUS_OK,
        content_type: "text/plain; charset=utf-8".to_owned(),
        body: "OK".to_owned(),
    }
}

/// Wraps a JSON text into an answer, or the reason why there is none.
pub fn json_response(encoded: Result<String, String>) -> (out: Response)
    ensures
        out@ == json_reply(
            match encoded {
                Ok(text) => Ok(text@),
                Err(detail) => Err(detail@),
            },
        ),
{
    match encoded {
        Ok(text) => Response {
            status: STATUS_OK,
            content_type: "application/json".to_owned(),
            body: text,
        },
        Err(detail) => Response {
            status: STATUS_INTERNAL_SERVER_ERROR,
            content_type: "text/plain; charset=utf-8".to_owned(),
            body: detail,
        },
    }
}

/// Answers with the JSON object whose member `message` is `Hello!`: always
/// the same, whatever the request and whatever else the server holds.
pub fn hello_handler() -> (out: Response)
    ensures
        out@ == hello_reply(),
{
    let encoded = match encode_object("message", "Hello!") {
        Ok(text) => Ok(text),
        Err(error) => Err(describe(&error)),
    };
    proof {
        reveal_strlit("message");
        reveal_strlit("Hello!");
        reveal_strlit("{\"message\":\"Hello!\"}");
        assert(is_plain("message"@));
        assert(is_plain("Hello!"@));
        assert(plain_object_text("message"@, "Hello!"@) =~= hello_text());
    }
    json_response(encoded)
}

/// Answers a request whose path resolved to an error. What went wrong on the
/// filesystem is for the log, not for the client.
pub fn error_response(error: &ResolveError) -> (out: Response)
    ensures
        out@ == error_reply(error@),
{
    match error {
        ResolveError::PathTraversalDenied => Response {
            status: STATUS_FORBIDDEN,
            content_type: "text/plain; charset=utf-8".to_owned(),
            body: "Forbidden".to_owned(),
        },
        ResolveError::IoError(_) => Response {
            status: STATUS_INTERNAL_SERVER_ERROR,
            content_type: "text/plain; charset=utf-8".to_owned(),
            body: "Internal Server Error".to_owned(),
        },
    }
}

/// How loudly an error is logged: a refused path is a warning, a failing
/// filesystem an error.
pub fn severity(error: &ResolveError) -> (out: Severity)
    ensures
        out == match error@ {
            ErrorView::PathTraversalDenied => Severity::Warning,
            ErrorView::IoError(_) => Severity::Error,
        },
{
    match error {
        ResolveError::PathTraversalDenied => Severity::Warning,
        ResolveError::IoError(_) => Severity::Error,
    }
}

/// Answers a request that no route takes and whose method asks for no asset.
pub fn method_not_allowed() -> (out: Response)
    ensures
        out@ == method_not_allowed_reply(),
{
    Response {
        status: STATUS_METHOD_NOT_ALLOWED,
        content_type: "text/plain; charset=utf-8".to_owned(),
        body: "Method Not Allowed".to_owned(),
    }
}

/// Settles on a media type, given what was guessed.
pub fn media_type_from(guess: Option<String>) -> (out: String)
    ensures
        out@ == media_type_or_default(
            match guess {
                Some(name) => Some(name@),
                None => None,
            },
        ),
{
    match guess {
        Some(name) => name,
        None => "application/octet-stream".to_owned(),
    }
}

/// Says how a resolved asset is to be sent.
pub fn asset_response(asset: ResolvedAsset) -> (out: FileReply)
    ensures
        out@ == asset_reply(asset@),
{
    match asset {
        ResolvedAsset::File(path) => {
            let guess = match extension_of(path.as_str()) {
                Some(tail) => guess_media_type(tail.as_str()),
                None => None,
            };
            FileReply { status: STATUS_OK, path, content_type: media_type_from(guess) }
        },
        ResolvedAsset::Fallback(path) => FileReply {
            status: STATUS_OK,
            path,
            content_type: "text/html".to_owned(),
        },
    }
}

} // verus!
