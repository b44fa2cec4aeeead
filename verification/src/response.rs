//! The response and its form on the wire.

use crate::loader::Status;
use crate::text::{decimal, push_decimal};
use vstd::prelude::*;
use vstd::slice::slice_to_vec;
use vstd::utf8::{
    decode_utf8, decode_utf8_encode_utf8, encode_scalar, encode_utf8, encode_utf8_decode_utf8,
    valid_utf8,
};

verus! {

/// A response, ready to be framed.
#[derive(Debug, PartialEq, Eq)]
pub struct HttpResponse {
    /// The protocol version of the status line.
    pub version: String,
    /// The numeric status.
    pub status_code: u32,
    /// The reason phrase that goes with the status.
    pub status_text: String,
    /// The header lines, in their order, without line ends. The line that
    /// states the length of the body is not among them: framing adds it.
    pub headers: Vec<String>,
    /// The number of bytes in the body.
    pub content_length: usize,
    /// The body.
    pub body: Vec<u8>,
}

/// The mathematical value of an [`HttpResponse`].
pub struct HttpResponseView {
    pub version: Seq<char>,
    pub status_code: nat,
    pub status_text: Seq<char>,
    pub headers: Seq<Seq<char>>,
    pub content_length: nat,
    pub body: Seq<u8>,
}

impl View for HttpResponse {
    type V = HttpResponseView;

    open spec fn view(&self) -> HttpResponseView {
        HttpResponseView {
            version: self.version@,
            status_code: self.status_code as nat,
            status_text: self.status_text@,
            headers: self.headers.deep_view(),
            content_length: self.content_length as nat,
            body: self.body@,
        }
    }
}

/// The end of a line on the wire.
pub open spec fn line_end() -> Seq<char> {
    seq!['\r', '\n']
}

/// The bytes that follow the body on the wire: two line ends.
pub open spec fn body_end() -> Seq<u8> {
    seq![13u8, 10u8, 13u8, 10u8]
}

/// The protocol version that every response of this library states.
pub open spec fn protocol_version() -> Seq<char> {
    "HTTP/1.1"@
}

/// The header lines one after the other, each followed by a line end.
pub open spec fn header_lines(headers: Seq<Seq<char>>) -> Seq<char>
    decreases headers.len(),
{
    if headers.len() == 0 {
        Seq::empty()
    } else {
        header_lines(headers.drop_last()) + headers.last() + line_end()
    }
}

/// The header line that announces a media type.
pub open spec fn content_type_line(media_type: Seq<char>) -> Seq<char> {
    "Content-Type: "@ + media_type
}

/// What is shown of a body in the text form of a response: the text that
/// the body encodes if it is valid UTF-8, and a fixed note otherwise.
pub open spec fn body_text(body: Seq<u8>) -> Seq<char> {
    if valid_utf8(body) {
        decode_utf8(body)
    } else {
        "Binary data"@
    }
}

impl HttpResponseView {
    /// The length field agrees with the body.
    pub open spec fn well_formed(self) -> bool {
        self.content_length == self.body.len()
    }

    /// The status line, with its line end.
    pub open spec fn status_line(self) -> Seq<char> {
        self.version + seq![' '] + decimal(self.status_code) + seq![' '] + self.status_text
            + line_end()
    }

    /// Everything before the body, for a body that is announced as `length`
    /// bytes long: the status line, the header lines, the line that states
    /// the length, and the empty line that ends the head.
    pub open spec fn head(self, length: nat) -> Seq<char> {
        self.status_line() + header_lines(self.headers) + "Content-Length: "@ + decimal(length)
            + line_end() + line_end()
    }

    /// The bytes that go on the wire: the head in UTF-8, with the length of
    /// the body as it is, not as the length field has it; the body; and two
    /// line ends.
    pub open spec fn wire(self) -> Seq<u8> {
        encode_utf8(self.head(self.body.len())) + self.body + body_end()
    }

    /// The response as text: the head, with the length that the length field
    /// states; the body as far as it is text; and two line ends.
    pub open spec fn text(self) -> Seq<char> {
        self.head(self.content_length) + body_text(self.body) + line_end() + line_end()
    }
}

/// The response that serves content: the fixed protocol version, the status
/// and its reason, one header line for the media type, and the body with
/// its length.
pub open spec fn content_response(
    status: Status,
    media_type: Seq<char>,
    body: Seq<u8>,
) -> HttpResponseView {
    HttpResponseView {
        version: protocol_version(),
        status_code: status.status(),
        status_text: status.reason(),
        headers: seq![content_type_line(media_type)],
        content_length: body.len(),
        body: body,
    }
}

/// `simdutf8::compat::from_utf8` checks whether the bytes are valid UTF-8
/// and, if they are, returns them as a string slice over the same bytes;
/// what its error says of an invalid input is dropped here.
#[verifier::external_body]
fn text_of(bytes: &[u8]) -> (text: Option<&str>)
    ensures
        text is Some <==> valid_utf8(bytes@),
        text matches Some(s) ==> encode_utf8(s@) == bytes@,
{
    simdutf8::compat::from_utf8(bytes).ok()
}

impl HttpResponse {
    /// The response that serves `body` with the given status as `media_type`.
    pub fn new(status: Status, media_type: &str, body: Vec<u8>) -> (response: HttpResponse)
        ensures
            response@ == content_response(status, media_type@, body@),
            response@.well_formed(),
    {
        let mut line = String::from_str("Content-Type: ");
        line.append(media_type);
        let mut headers: Vec<String> = Vec::new();
        headers.push(line);
        let response = HttpResponse {
            version: String::from_str("HTTP/1.1"),
            status_code: status.status_code(),
            status_text: String::from_str(status.status_text()),
            headers,
            content_length: body.len(),
            body,
        };
        assert(response@.headers =~= seq![content_type_line(media_type@)]);
        response
    }

    /// Appends everything before the body to `out`, announcing `length` bytes.
    fn push_head(&self, out: &mut String, length: usize)
        ensures
            final(out)@ == old(out)@ + self@.head(length as nat),
    {
        let ghost start = out@;
        out.append(self.version.as_str());
        out.push(' ');
        push_decimal(out, self.status_code as u64);
        out.push(' ');
        out.append(self.status_text.as_str());
        out.push('\r');
        out.push('\n');
        let mut i: usize = 0;
        while i < self.headers.len()
            invariant
                i <= self.headers.len(),
                out@ == start + self@.status_line() + header_lines(
                    self.headers.deep_view().take(i as int),
                ),
            decreases self.headers.len() - i,
        {
            proof {
                let all = self.headers.deep_view();
                assert(all.take(i + 1).drop_last() =~= all.take(i as int));
            }
            out.append(self.headers[i].as_str());
            out.push('\r');
            out.push('\n');
            i = i + 1;
        }
        assert(self.headers.deep_view().take(i as int) =~= self.headers.deep_view());
        out.append("Content-Length: ");
        push_decimal(out, length as u64);
        out.push('\r');
        out.push('\n');
        out.push('\r');
        out.push('\n');
    }

    /// Writes the response into `buf` as it goes on the wire; what `buf` held
    /// before is dropped.
    pub fn to_data(&self, buf: &mut Vec<u8>)
        ensures
            final(buf)@ == self@.wire(),
    {
        let mut head = String::new();
        self.push_head(&mut head, self.body.len());
        let mut data = slice_to_vec(head.as_str().as_bytes());
        let mut body = slice_to_vec(self.body.as_slice());
        data.append(&mut body);
        data.push(13u8);
        data.push(10u8);
        data.push(13u8);
        data.push(10u8);
        *buf = data;
    }

    /// The response as text, with a note in place of a body that is not text.
    pub fn to_string(&self) -> (text: String)
        ensures
            text@ == self@.text(),
    {
        let mut text = String::new();
        self.push_head(&mut text, self.content_length);
        match text_of(self.body.as_slice()) {
            Some(s) => {
                proof {
                    encode_utf8_decode_utf8(s@);
                }
                text.append(s);
            },
            None => {
                text.append("Binary data");
            },
        }
        text.push('\r');
        text.push('\n');
        text.push('\r');
        text.push('\n');
        text
    }
}

/// The UTF-8 encoding of two sequences written one after the other is the
/// encoding of the first followed by the encoding of the second.
pub proof fn lemma_encode_utf8_concat(a: Seq<char>, b: Seq<char>)
    ensures
        encode_utf8(a + b) == encode_utf8(a) + encode_utf8(b),
    decreases a.len(),
{
    if a.len() > 0 {
        lemma_encode_utf8_concat(a.drop_first(), b);
        assert((a + b).drop_first() =~= a.drop_first() + b);
    }
}

/// The text form and the wire form agree: where the length field agrees
/// with the body and the body is text, the text form in UTF-8 is exactly
/// what goes on the wire.
pub proof fn lemma_text_encodes_to_wire(response: HttpResponseView)
    requires
        response.well_formed(),
        valid_utf8(response.body),
    ensures
        encode_utf8(response.text()) == response.wire(),
{
    let head = response.head(response.content_length);
    let body = decode_utf8(response.body);
    decode_utf8_encode_utf8(response.body);
    assert(response.text() =~= head + (body + (line_end() + line_end())));
    lemma_encode_utf8_concat(head, body + (line_end() + line_end()));
    lemma_encode_utf8_concat(body, line_end() + line_end());
    lemma_line_ends_in_utf8();
}

/// Two line ends in UTF-8 are the four bytes that follow the body.
pub proof fn lemma_line_ends_in_utf8()
    ensures
        encode_utf8(line_end() + line_end()) == body_end(),
{
    reveal_with_fuel(encode_utf8, 5);
    assert(encode_scalar('\r' as u32) =~= seq![13u8]) by {
        lemma_ascii_scalar(13);
    }
    assert(encode_scalar('\n' as u32) =~= seq![10u8]) by {
        lemma_ascii_scalar(10);
    }
}

/// A scalar below 128 is encoded as the one byte of the same value.
pub proof fn lemma_ascii_scalar(scalar: u32)
    by (bit_vector)
    requires
        scalar < 128,
    ensures
        0 <= scalar <= 0x7f,
        (scalar & 0x7f) as u8 == scalar as u8,
{
}

} // verus!
