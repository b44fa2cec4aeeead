use static_server::error::{HttpErrorCode, ToHttpError};
use static_server::loader::Status;
use static_server::response::HttpResponse;
use static_server::text::push_decimal;

fn decimal(n: u64) -> String {
    let mut out = String::new();
    push_decimal(&mut out, n);
    out
}

#[test]
fn decimal_numerals() {
    assert_eq!(decimal(0), "0");
    assert_eq!(decimal(7), "7");
    assert_eq!(decimal(10), "10");
    assert_eq!(decimal(404), "404");
    assert_eq!(decimal(1234567890), "1234567890");
    assert_eq!(decimal(u64::MAX), "18446744073709551615");
}

#[test]
fn decimal_is_appended() {
    let mut out = "Content-Length: ".to_string();
    push_decimal(&mut out, 5);
    assert_eq!(out, "Content-Length: 5");
}

#[test]
fn content_response_fields() {
    let response = HttpResponse::new(Status::Success, "text/html", b"hello".to_vec());
    assert_eq!(response.version, "HTTP/1.1");
    assert_eq!(response.status_code, 200);
    assert_eq!(response.status_text, "Success");
    assert_eq!(response.headers, vec!["Content-Type: text/html".to_string()]);
    assert_eq!(response.content_length, 5);
    assert_eq!(response.body, b"hello".to_vec());
}

#[test]
fn wire_form_of_a_success() {
    let response = HttpResponse::new(Status::Success, "text/html", b"hello".to_vec());
    let mut data = vec![1u8, 2, 3];
    response.to_data(&mut data);
    let expected: &[u8] =
        b"HTTP/1.1 200 Success\r\nContent-Type: text/html\r\nContent-Length: 5\r\n\r\nhello\r\n\r\n";
    assert_eq!(data, expected.to_vec());
}

#[test]
fn wire_form_of_a_redirect() {
    let response = HttpResponse::new(Status::Redirect, "text/plain; charset=utf-8", vec![]);
    let mut data = Vec::new();
    response.to_data(&mut data);
    let expected: &[u8] = b"HTTP/1.1 301 Moved Permanently\r\nContent-Type: text/plain; charset=utf-8\r\nContent-Length: 0\r\n\r\n\r\n\r\n";
    assert_eq!(data, expected.to_vec());
}

#[test]
fn wire_form_keeps_binary_bodies() {
    let body = vec![0u8, 159, 146, 150, 255, 13, 10];
    let response = HttpResponse::new(Status::Success, "application/octet-stream", body.clone());
    let mut data = Vec::new();
    response.to_data(&mut data);
    let mut expected =
        b"HTTP/1.1 200 Success\r\nContent-Type: application/octet-stream\r\nContent-Length: 7\r\n\r\n"
            .to_vec();
    expected.extend_from_slice(&body);
    expected.extend_from_slice(b"\r\n\r\n");
    assert_eq!(data, expected);
}

#[test]
fn length_on_the_wire_is_that_of_the_body() {
    let response = HttpResponse {
        version: "HTTP/1.0".to_string(),
        status_code: 200,
        status_text: "OK".to_string(),
        headers: vec!["A: 1".to_string(), "B: 2".to_string()],
        content_length: 999,
        body: b"abc".to_vec(),
    };
    let mut data = Vec::new();
    response.to_data(&mut data);
    let expected: &[u8] = b"HTTP/1.0 200 OK\r\nA: 1\r\nB: 2\r\nContent-Length: 3\r\n\r\nabc\r\n\r\n";
    assert_eq!(data, expected.to_vec());
}

#[test]
fn wire_form_encodes_the_head_in_utf8() {
    let response = HttpResponse {
        version: "HTTP/1.1".to_string(),
        status_code: 200,
        status_text: "D\u{e9}j\u{e0}".to_string(),
        headers: vec![],
        content_length: 0,
        body: vec![],
    };
    let mut data = Vec::new();
    response.to_data(&mut data);
    let expected = "HTTP/1.1 200 D\u{e9}j\u{e0}\r\nContent-Length: 0\r\n\r\n\r\n\r\n";
    assert_eq!(data, expected.as_bytes().to_vec());
}

#[test]
fn text_form_shows_a_text_body() {
    let response = HttpResponse::new(Status::Success, "text/plain", "h\u{e9}llo".as_bytes().to_vec());
    let expected =
        "HTTP/1.1 200 Success\r\nContent-Type: text/plain\r\nContent-Length: 6\r\n\r\nh\u{e9}llo\r\n\r\n";
    assert_eq!(response.to_string(), expected);
}

#[test]
fn text_form_hides_a_binary_body() {
    let response = HttpResponse::new(Status::Success, "image/png", vec![0x89, 0x50, 0xff, 0xfe]);
    let expected =
        "HTTP/1.1 200 Success\r\nContent-Type: image/png\r\nContent-Length: 4\r\n\r\nBinary data\r\n\r\n";
    assert_eq!(response.to_string(), expected);
}

#[test]
fn text_form_states_the_length_field() {
    let response = HttpResponse {
        version: "HTTP/1.1".to_string(),
        status_code: 200,
        status_text: "Success".to_string(),
        headers: vec![],
        content_length: 42,
        body: b"abc".to_vec(),
    };
    assert_eq!(response.to_string(), "HTTP/1.1 200 Success\r\nContent-Length: 42\r\n\r\nabc\r\n\r\n");
}

#[test]
fn text_form_in_utf8_is_the_wire_form() {
    let response = HttpResponse::new(Status::Success, "text/html", "<p>\u{2603}</p>".as_bytes().to_vec());
    let mut data = Vec::new();
    response.to_data(&mut data);
    assert_eq!(response.to_string().into_bytes(), data);
}

#[test]
fn error_statuses() {
    let table = [
        (HttpErrorCode::BadRequest, 400, "Bad Request"),
        (HttpErrorCode::NotFound, 404, "Not Found"),
        (HttpErrorCode::ImATeapot, 418, "Im A Teapot"),
        (HttpErrorCode::InternalServerError, 500, "Internal Server Error"),
        (HttpErrorCode::NotImplemented, 501, "Not Implemented"),
        (HttpErrorCode::HttpVersionNotSupported, 505, "HTTP Version Not Supported"),
    ];
    for (code, status, text) in table {
        assert_eq!(code.status_code(), status);
        assert_eq!(code.status_text(), text);
        let response = code.to_http_response();
        assert_eq!(response.version, "HTTP/1.1");
        assert_eq!(response.status_code, status);
        assert_eq!(response.status_text, text);
        assert_eq!(response.headers, vec!["Content-Type: text/plain; charset=utf-8".to_string()]);
        assert_eq!(response.body, format!("{} {}", status, text).into_bytes());
        assert_eq!(response.content_length, text.len() + 4);
        assert_eq!(response.content_length, response.body.len());
        assert!(!response.body.is_empty());
    }
}

#[test]
fn wire_form_of_an_error() {
    let mut data = Vec::new();
    HttpErrorCode::NotFound.to_http_response().to_data(&mut data);
    let expected: &[u8] = b"HTTP/1.1 404 Not Found\r\nContent-Type: text/plain; charset=utf-8\r\nContent-Length: 13\r\n\r\n404 Not Found\r\n\r\n";
    assert_eq!(data, expected.to_vec());
}

#[test]
fn success_is_kept_by_to_http_error() {
    let result: Result<u8, String> = Ok(7);
    assert_eq!(result.to_http_error(HttpErrorCode::NotFound), Ok(7));
}

#[test]
fn failure_is_replaced_by_to_http_error() {
    let result: Result<u8, String> = Err("no such file".to_string());
    assert_eq!(result.to_http_error(HttpErrorCode::NotFound), Err(HttpErrorCode::NotFound));
    let result: Result<u8, u32> = Err(5);
    assert_eq!(
        result.to_http_error(HttpErrorCode::InternalServerError),
        Err(HttpErrorCode::InternalServerError)
    );
}

#[test]
fn text_form_hides_what_is_not_valid_utf8() {
    let bodies: [&[u8]; 5] = [
        &[0xc0, 0x80],
        &[0xed, 0xa0, 0x80],
        &[0xf4, 0x90, 0x80, 0x80],
        &[b'a', 0x80],
        &[0xe2, 0x98],
    ];
    for body in bodies {
        let response = HttpResponse::new(Status::Success, "text/plain", body.to_vec());
        let expected = format!(
            "HTTP/1.1 200 Success\r\nContent-Type: text/plain\r\nContent-Length: {}\r\n\r\nBinary data\r\n\r\n",
            body.len()
        );
        assert_eq!(response.to_string(), expected);
    }
}

#[test]
fn text_form_shows_an_empty_body() {
    let response = HttpResponse::new(Status::Redirect, "text/plain", vec![]);
    let expected =
        "HTTP/1.1 301 Moved Permanently\r\nContent-Type: text/plain\r\nContent-Length: 0\r\n\r\n\r\n\r\n";
    assert_eq!(response.to_string(), expected);
}
