//! The request line: a method, a resource and a protocol version, separated
//! by single spaces.

use crate::error::{HttpErrorCode, HttpResult};
use crate::text::{
    is_trimmed, lemma_split_cons, lemma_split_pieces_hold_no_separator, lemma_split_single,
    lemma_trim_end_shape, lemma_trim_is_trimmed, lemma_trim_start_shape, pieces, split,
    split_ranges, string_of, to_chars, trim, trim_range, trim_start,
};
use vstd::prelude::*;

verus! {

/// The request methods that are told apart; every other token is `UNKNOWN`.
#[derive(Debug, Clone, Copy, PartialEq, Eq, Structural)]
pub enum HttpRequestType {
    GET,
    POST,
    PUT,
    HEAD,
    DELETE,
    PATCH,
    OPTIONS,
    CONNECT,
    TRACE,
    UNKNOWN,
}

impl HttpRequestType {
    /// The token that names this method on the request line.
    pub open spec fn token(self) -> Seq<char> {
        match self {
            HttpRequestType::GET => "GET"@,
            HttpRequestType::POST => "POST"@,
            HttpRequestType::PUT => "PUT"@,
            HttpRequestType::HEAD => "HEAD"@,
            HttpRequestType::DELETE => "DELETE"@,
            HttpRequestType::PATCH => "PATCH"@,
            HttpRequestType::OPTIONS => "OPTIONS"@,
            HttpRequestType::CONNECT => "CONNECT"@,
            HttpRequestType::TRACE => "TRACE"@,
            HttpRequestType::UNKNOWN => "UNKNOWN"@,
        }
    }

    /// The method that `token` names, letter case included; `UNKNOWN` for
    /// every token that names none.
    pub open spec fn from_token(token: Seq<char>) -> HttpRequestType {
        if token == "GET"@ {
            HttpRequestType::GET
        } else if token == "POST"@ {
            HttpRequestType::POST
        } else if token == "PUT"@ {
            HttpRequestType::PUT
        } else if token == "HEAD"@ {
            HttpRequestType::HEAD
        } else if token == "DELETE"@ {
            HttpRequestType::DELETE
        } else if token == "PATCH"@ {
            HttpRequestType::PATCH
        } else if token == "OPTIONS"@ {
            HttpRequestType::OPTIONS
        } else if token == "CONNECT"@ {
            HttpRequestType::CONNECT
        } else if token == "TRACE"@ {
            HttpRequestType::TRACE
        } else {
            HttpRequestType::UNKNOWN
        }
    }

    /// The token that names this method on the request line.
    pub fn as_str(&self) -> (s: &'static str)
        ensures
            s@ == self.token(),
    {
        match self {
            HttpRequestType::GET => "GET",
            HttpRequestType::POST => "POST",
            HttpRequestType::PUT => "PUT",
            HttpRequestType::HEAD => "HEAD",
            HttpRequestType::DELETE => "DELETE",
            HttpRequestType::PATCH => "PATCH",
            HttpRequestType::OPTIONS => "OPTIONS",
            HttpRequestType::CONNECT => "CONNECT",
            HttpRequestType::TRACE => "TRACE",
            HttpRequestType::UNKNOWN => "UNKNOWN",
        }
    }

    /// The method that `token` names.
    pub fn parse(token: &str) -> (m: HttpRequestType)
        ensures
            m == HttpRequestType::from_token(token@),
    {
        let v = to_chars(token);
        if same_chars(&v, "GET") {
            HttpRequestType::GET
        } else if same_chars(&v, "POST") {
            HttpRequestType::POST
        } else if same_chars(&v, "PUT") {
            HttpRequestType::PUT
        } else if same_chars(&v, "HEAD") {
            HttpRequestType::HEAD
        } else if same_chars(&v, "DELETE") {
            HttpRequestType::DELETE
        } else if same_chars(&v, "PATCH") {
            HttpRequestType::PATCH
        } else if same_chars(&v, "OPTIONS") {
            HttpRequestType::OPTIONS
        } else if same_chars(&v, "CONNECT") {
            HttpRequestType::CONNECT
        } else if same_chars(&v, "TRACE") {
            HttpRequestType::TRACE
        } else {
            HttpRequestType::UNKNOWN
        }
    }
}

/// Tells whether `v` holds exactly the characters of `word`.
fn same_chars(v: &Vec<char>, word: &str) -> (r: bool)
    ensures
        r == (v@ == word@),
{
    let w = to_chars(word);
    if v.len() != w.len() {
        return false;
    }
    let mut i: usize = 0;
    while i < v.len()
        invariant
            i <= v.len() == w.len(),
            w@ == word@,
            forall|j: int| 0 <= j < i ==> v@[j] == w@[j],
        decreases v.len() - i,
    {
        if v[i] != w[i] {
            return false;
        }
        i = i + 1;
    }
    assert(v@ =~= w@);
    true
}

/// A parsed request line.
#[derive(Debug, PartialEq, Eq)]
pub struct HttpRequest {
    /// The method.
    pub req_type: HttpRequestType,
    /// The requested resource, as the client wrote it.
    pub resource: String,
    /// The protocol version, as the client wrote it.
    pub version: String,
}

/// The mathematical value of an [`HttpRequest`].
pub struct HttpRequestView {
    pub req_type: HttpRequestType,
    pub resource: Seq<char>,
    pub version: Seq<char>,
}

impl View for HttpRequest {
    type V = HttpRequestView;

    open spec fn view(&self) -> HttpRequestView {
        HttpRequestView {
            req_type: self.req_type,
            resource: self.resource@,
            version: self.version@,
        }
    }
}

/// What parsing the line gives: the line is cut at every single space, and
/// its first three pieces, each trimmed, are the method, the resource and
/// the version. A line with fewer than three pieces is a bad request.
pub open spec fn parse_line(line: Seq<char>) -> Result<HttpRequestView, HttpErrorCode> {
    let parts = split(line, ' ');
    if parts.len() < 3 {
        Err(HttpErrorCode::BadRequest)
    } else {
        Ok(
            HttpRequestView {
                req_type: HttpRequestType::from_token(trim(parts[0])),
                resource: trim(parts[1]),
                version: trim(parts[2]),
            },
        )
    }
}

/// The line that states the request: method, resource and version with one
/// space between them.
pub open spec fn request_line(req: HttpRequestView) -> Seq<char> {
    req.req_type.token() + seq![' '] + req.resource + seq![' '] + req.version
}

/// A field of a request can stand on a request line when it holds no space
/// and is trimmed.
pub open spec fn is_field(s: Seq<char>) -> bool {
    !s.contains(' ') && is_trimmed(s)
}

impl HttpRequest {
    /// Parses the first line of a request.
    pub fn parse(line: &str) -> (r: HttpResult<HttpRequest>)
        ensures
            parse_line(line@) == match r {
                Ok(req) => Ok::<HttpRequestView, HttpErrorCode>(req@),
                Err(e) => Err::<HttpRequestView, HttpErrorCode>(e),
            },
    {
        let chars = to_chars(line);
        let parts = split_ranges(&chars, ' ');
        if parts.len() < 3 {
            return Err(HttpErrorCode::BadRequest);
        }
        let method = trim_range(&chars, parts[0].0, parts[0].1);
        let resource = trim_range(&chars, parts[1].0, parts[1].1);
        let version = trim_range(&chars, parts[2].0, parts[2].1);
        let token = string_of(&chars, method.0, method.1);
        Ok(
            HttpRequest {
                req_type: HttpRequestType::parse(token.as_str()),
                resource: string_of(&chars, resource.0, resource.1),
                version: string_of(&chars, version.0, version.1),
            },
        )
    }

    /// The line that states this request.
    pub fn to_line(&self) -> (line: String)
        ensures
            line@ == request_line(self@),
    {
        let mut line = String::new();
        line.append(self.req_type.as_str());
        line.push(' ');
        line.append(self.resource.as_str());
        line.push(' ');
        line.append(self.version.as_str());
        line
    }
}

/// Every method token holds no space and is trimmed, and names its own method.
pub proof fn lemma_method_tokens(m: HttpRequestType)
    ensures
        is_field(m.token()),
        HttpRequestType::from_token(m.token()) == m,
{
    reveal_strlit("GET");
    reveal_strlit("POST");
    reveal_strlit("PUT");
    reveal_strlit("HEAD");
    reveal_strlit("DELETE");
    reveal_strlit("PATCH");
    reveal_strlit("OPTIONS");
    reveal_strlit("CONNECT");
    reveal_strlit("TRACE");
    reveal_strlit("UNKNOWN");
    let token = m.token();
    if token.contains(' ') {
        // The tokens are spelled out above: none of them holds a space.
        let j = choose|j: int| 0 <= j < token.len() && token[j] == ' ';
        assert(false);
    }
}

/// A piece that holds no space, once trimmed, can stand on a request line.
pub proof fn lemma_trimmed_piece_is_field(s: Seq<char>)
    requires
        !s.contains(' '),
    ensures
        is_field(trim(s)),
{
    lemma_trim_is_trimmed(s);
    lemma_trim_start_shape(s);
    lemma_trim_end_shape(trim_start(s));
}

/// Writing a request out and parsing the line gives the request back,
/// provided its resource and version can stand on a request line.
pub proof fn lemma_write_then_parse(req: HttpRequestView)
    requires
        is_field(req.resource),
        is_field(req.version),
    ensures
        parse_line(request_line(req)) == Ok::<HttpRequestView, HttpErrorCode>(req),
{
    let m = req.req_type.token();
    lemma_method_tokens(req.req_type);
    let tail = req.resource + seq![' '] + req.version;
    assert(request_line(req) =~= m + seq![' '] + tail);
    lemma_split_cons(m, tail, ' ');
    lemma_split_cons(req.resource, req.version, ' ');
    lemma_split_single(req.version, ' ');
    lemma_trim_is_trimmed(m);
    lemma_trim_is_trimmed(req.resource);
    lemma_trim_is_trimmed(req.version);
}

/// Parsing is a round trip: a request that was parsed from a line, written
/// out and parsed again, is the same request.
pub proof fn lemma_parse_round_trip(line: Seq<char>)
    ensures
        parse_line(line) matches Ok(req) ==> parse_line(request_line(req)) == Ok::<
            HttpRequestView,
            HttpErrorCode,
        >(req),
{
    if let Ok(req) = parse_line(line) {
        let parts = split(line, ' ');
        lemma_split_pieces_hold_no_separator(line, ' ');
        lemma_trimmed_piece_is_field(parts[1]);
        lemma_trimmed_piece_is_field(parts[2]);
        lemma_write_then_parse(req);
    }
}

} // verus!
