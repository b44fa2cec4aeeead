//! The failures of the pipeline and the status each of them is answered with.

use crate::loader::default_media_type;
use crate::response::{content_type_line, protocol_version, HttpResponse, HttpResponseView};
use crate::text::{decimal, push_decimal};
use vstd::prelude::*;
use vstd::utf8::encode_utf8;

verus! {

/// What went wrong while a request was handled.
#[derive(Debug, Clone, Copy, PartialEq, Eq, Structural)]
pub enum HttpErrorCode {
    /// The request line is malformed or incomplete.
    BadRequest,
    /// The resource does not resolve to a servable file below the root.
    NotFound,
    /// Reserved; no step of the pipeline reports it.
    ImATeapot,
    /// The file is there but could not be opened or read to its end.
    InternalServerError,
    /// Reserved; no step of the pipeline reports it.
    NotImplemented,
    /// Reserved; no step of the pipeline reports it.
    HttpVersionNotSupported,
}

/// The result of a step that can fail with an [`HttpErrorCode`].
pub type HttpResult<T> = Result<T, HttpErrorCode>;

/// Replaces the error of a result, whatever it is, by an [`HttpErrorCode`].
pub trait ToHttpError<T, E> {
    /// The success this result holds, if it holds one.
    spec fn success(self) -> Option<T>;

    /// Keeps a success and answers every failure with `error_type`.
    fn to_http_error(self, error_type: HttpErrorCode) -> (r: HttpResult<T>)
        ensures
            r == match self.success() {
                Some(t) => Ok::<T, HttpErrorCode>(t),
                None => Err::<T, HttpErrorCode>(error_type),
            },
    ;
}

impl<T, E> ToHttpError<T, E> for Result<T, E> {
    open spec fn success(self) -> Option<T> {
        match self {
            Ok(t) => Some(t),
            Err(_) => None,
        }
    }

    fn to_http_error(self, error_type: HttpErrorCode) -> (r: HttpResult<T>) {
        match self {
            Ok(t) => Ok(t),
            Err(_) => Err(error_type),
        }
    }
}

impl HttpErrorCode {
    /// The numeric status that answers this failure.
    pub open spec fn status(self) -> nat {
        match self {
            HttpErrorCode::BadRequest => 400,
            HttpErrorCode::NotFound => 404,
            HttpErrorCode::ImATeapot => 418,
            HttpErrorCode::InternalServerError => 500,
            HttpErrorCode::NotImplemented => 501,
            HttpErrorCode::HttpVersionNotSupported => 505,
        }
    }

    /// The reason phrase that goes with the status.
    pub open spec fn reason(self) -> Seq<char> {
        match self {
            HttpErrorCode::BadRequest => "Bad Request"@,
            HttpErrorCode::NotFound => "Not Found"@,
            HttpErrorCode::ImATeapot => "Im A Teapot"@,
            HttpErrorCode::InternalServerError => "Internal Server Error"@,
            HttpErrorCode::NotImplemented => "Not Implemented"@,
            HttpErrorCode::HttpVersionNotSupported => "HTTP Version Not Supported"@,
        }
    }

    /// The numeric status that answers this failure.
    pub fn status_code(&self) -> (code: u32)
        ensures
            code == self.status(),
    {
        match self {
            HttpErrorCode::BadRequest => 400,
            HttpErrorCode::NotFound => 404,
            HttpErrorCode::ImATeapot => 418,
            HttpErrorCode::InternalServerError => 500,
            HttpErrorCode::NotImplemented => 501,
            HttpErrorCode::HttpVersionNotSupported => 505,
        }
    }

    /// The reason phrase that goes with the status.
    pub fn status_text(&self) -> (text: &'static str)
        ensures
            text@ == self.reason(),
    {
        match self {
            HttpErrorCode::BadRequest => "Bad Request",
            HttpErrorCode::NotFound => "Not Found",
            HttpErrorCode::ImATeapot => "Im A Teapot",
            HttpErrorCode::InternalServerError => "Internal Server Error",
            HttpErrorCode::NotImplemented => "Not Implemented",
            HttpErrorCode::HttpVersionNotSupported => "HTTP Version Not Supported",
        }
    }

    /// The response that answers this failure.
    pub fn to_http_response(&self) -> (response: HttpResponse)
        ensures
            response@ == error_response(*self),
            response@.well_formed(),
    {
        let status_code = self.status_code();
        let status_text = self.status_text();
        let mut text = String::new();
        push_decimal(&mut text, status_code as u64);
        text.push(' ');
        text.append(status_text);
        assert(text@ =~= error_text(*self));
        let body = text.as_str().as_bytes_vec();
        let mut headers: Vec<String> = Vec::new();
        let mut line = String::from_str("Content-Type: ");
        line.append("text/plain; charset=utf-8");
        headers.push(line);
        assert(headers.deep_view() =~= seq![content_type_line(default_media_type())]);
        HttpResponse {
            version: String::from_str("HTTP/1.1"),
            status_code,
            status_text: String::from_str(status_text),
            headers,
            content_length: body.len(),
            body,
        }
    }
}

/// The text that describes a failure to the client: the numeric status, a
/// space, and the reason phrase.
pub open spec fn error_text(code: HttpErrorCode) -> Seq<char> {
    decimal(code.status()) + seq![' '] + code.reason()
}

/// The response that answers a failure: the fixed protocol version, the
/// status and reason of the failure, one header line that announces plain
/// text, and the text that describes the failure as the body.
pub open spec fn error_response(code: HttpErrorCode) -> HttpResponseView {
    HttpResponseView {
        version: protocol_version(),
        status_code: code.status(),
        status_text: code.reason(),
        headers: seq![content_type_line(default_media_type())],
        content_length: encode_utf8(error_text(code)).len(),
        body: encode_utf8(error_text(code)),
    }
}

/// Every failure is answered with a body that is not empty.
pub proof fn lemma_error_body_is_not_empty(code: HttpErrorCode)
    ensures
        error_response(code).body.len() > 0,
        error_response(code).well_formed(),
{
    // The text starts with a numeral, and every character takes a byte at least.
    assert(error_text(code).len() > 0);
}

} // verus!
