use static_server::error::HttpErrorCode;
use static_server::handler::{handle_client, Action, Connection, Event};
use static_server::loader::{FileKind, Probe, Reading, Status};
use static_server::request::{HttpRequest, HttpRequestType};
use static_server::response::HttpResponse;

const ROOT: &str = "/srv/www";

fn file(bytes: &[u8]) -> Event {
    Event::Probed(Probe {
        kind: Some(FileKind::File),
        index_exists: false,
        reading: Reading::Complete(bytes.to_vec()),
    })
}

fn written(response: &HttpResponse) -> Action {
    let mut data = Vec::new();
    response.to_data(&mut data);
    Action::Write { data }
}

fn answered(code: HttpErrorCode) -> (Connection, Action) {
    let action = written(&code.to_http_response());
    (Connection::Responded { response: code.to_http_response() }, action)
}

// Runs a connection on the events that an imagined file system and socket
// report, and returns what was written and the number of steps taken.
fn serve(line: &str, canonical: Option<&str>, probe: Event) -> (Vec<u8>, usize) {
    let (mut state, mut action) = Connection::accept();
    let mut canonical = Some(Event::Canonical(canonical.map(|p| p.to_string())));
    let mut probe = Some(probe);
    let mut sent = Vec::new();
    let mut steps = 0;
    loop {
        let event = match action {
            Action::ReadLine => Event::Line(line.to_string()),
            Action::Canonicalize { .. } => canonical.take().unwrap(),
            Action::Probe { .. } => probe.take().unwrap(),
            Action::Proceed => Event::Proceeded,
            Action::Write { data } => {
                sent.extend_from_slice(&data);
                Event::Written
            }
            Action::Close => break,
        };
        let next = handle_client(ROOT, state, event);
        state = next.0;
        action = next.1;
        steps += 1;
    }
    assert!(state.is_closed());
    (sent, steps)
}

#[test]
fn accepted_connection_awaits_the_line() {
    assert_eq!(Connection::accept(), (Connection::AwaitLine, Action::ReadLine));
    assert!(!Connection::AwaitLine.is_closed());
    assert!(Connection::Closed.is_closed());
}

#[test]
fn line_is_parsed_and_candidate_handed_out() {
    let (state, action) =
        handle_client(ROOT, Connection::AwaitLine, Event::Line("GET /a/../b.txt HTTP/1.1\r\n".to_string()));
    let request = HttpRequest {
        req_type: HttpRequestType::GET,
        resource: "/a/../b.txt".to_string(),
        version: "HTTP/1.1".to_string(),
    };
    assert_eq!(state, Connection::Parsed { request });
    assert_eq!(action, Action::Canonicalize { path: "/srv/www/a/b.txt".to_string() });
}

#[test]
fn short_line_is_answered_with_bad_request() {
    let step = handle_client(ROOT, Connection::AwaitLine, Event::Line("GET\r\n".to_string()));
    assert_eq!(step, answered(HttpErrorCode::BadRequest));
    let (sent, _) = serve("GET\r\n", None, file(b""));
    let expected: &[u8] = b"HTTP/1.1 400 Bad Request\r\nContent-Type: text/plain; charset=utf-8\r\nContent-Length: 15\r\n\r\n400 Bad Request\r\n\r\n";
    assert_eq!(sent, expected.to_vec());
}

#[test]
fn failed_read_closes_without_an_answer() {
    let step = handle_client(ROOT, Connection::AwaitLine, Event::ReadFailed);
    assert_eq!(step, (Connection::Closed, Action::Close));
}

#[test]
fn canonical_path_is_resolved_and_probed() {
    let request = HttpRequest {
        req_type: HttpRequestType::GET,
        resource: "/docs".to_string(),
        version: "HTTP/1.1".to_string(),
    };
    let (state, action) = handle_client(
        ROOT,
        Connection::Parsed { request },
        Event::Canonical(Some("/srv/www/docs".to_string())),
    );
    assert_eq!(state, Connection::Resolved { path: "/srv/www/docs".to_string() });
    assert_eq!(
        action,
        Action::Probe {
            path: "/srv/www/docs".to_string(),
            index: "/srv/www/docs/index.html".to_string()
        }
    );
}

#[test]
fn escape_through_a_link_is_not_found() {
    let request = HttpRequest {
        req_type: HttpRequestType::GET,
        resource: "/link/passwd".to_string(),
        version: "HTTP/1.1".to_string(),
    };
    let step = handle_client(
        ROOT,
        Connection::Parsed { request },
        Event::Canonical(Some("/etc/passwd".to_string())),
    );
    assert_eq!(step, answered(HttpErrorCode::NotFound));
}

#[test]
fn loaded_content_carries_the_media_type() {
    let (state, action) = handle_client(
        ROOT,
        Connection::Resolved { path: "/srv/www/index.html".to_string() },
        file(b"hello"),
    );
    assert_eq!(
        state,
        Connection::Loaded {
            status: Status::Success,
            media_type: "text/html".to_string(),
            body: b"hello".to_vec()
        }
    );
    assert_eq!(action, Action::Proceed);
}

#[test]
fn loaded_content_is_framed() {
    let state = Connection::Loaded {
        status: Status::Success,
        media_type: "text/html".to_string(),
        body: b"hello".to_vec(),
    };
    let (state, action) = handle_client(ROOT, state, Event::Proceeded);
    let response = HttpResponse::new(Status::Success, "text/html", b"hello".to_vec());
    assert_eq!(action, written(&response));
    assert_eq!(state, Connection::Responded { response });
}

#[test]
fn connection_closes_after_the_write_whatever_became_of_it() {
    let response = HttpErrorCode::NotFound.to_http_response();
    let step = handle_client(ROOT, Connection::Responded { response }, Event::Written);
    assert_eq!(step, (Connection::Closed, Action::Close));
    let response = HttpErrorCode::NotFound.to_http_response();
    let step = handle_client(ROOT, Connection::Responded { response }, Event::WriteFailed);
    assert_eq!(step, (Connection::Closed, Action::Close));
    let step = handle_client(ROOT, Connection::Closed, Event::Written);
    assert_eq!(step, (Connection::Closed, Action::Close));
}

#[test]
fn unexpected_event_is_a_server_error() {
    let step = handle_client(ROOT, Connection::AwaitLine, Event::Written);
    assert_eq!(step, answered(HttpErrorCode::InternalServerError));
    let step = handle_client(
        ROOT,
        Connection::Resolved { path: "/srv/www/a".to_string() },
        Event::Canonical(None),
    );
    assert_eq!(step, answered(HttpErrorCode::InternalServerError));
    let state = Connection::Loaded { status: Status::Success, media_type: "a/b".to_string(), body: vec![] };
    let step = handle_client(ROOT, state, Event::ReadFailed);
    assert_eq!(step, answered(HttpErrorCode::InternalServerError));
}

#[test]
fn root_request_serves_the_index() {
    let (sent, steps) = serve("GET / HTTP/1.1\r\n", Some("/srv/www/index.html"), file(b"hello"));
    let expected: &[u8] =
        b"HTTP/1.1 200 Success\r\nContent-Type: text/html\r\nContent-Length: 5\r\n\r\nhello\r\n\r\n";
    assert_eq!(sent, expected.to_vec());
    assert_eq!(steps, 5);
}

#[test]
fn directory_request_with_index_serves_its_bytes() {
    let step = handle_client(ROOT, Connection::AwaitLine, Event::Line("GET /docs/ HTTP/1.1".to_string()));
    assert_eq!(step.1, Action::Canonicalize { path: "/srv/www/docs/index.html".to_string() });
    let bytes = [0u8, 1, 2, 250, 251, 252];
    let (sent, _) = serve("GET /docs/ HTTP/1.1", Some("/srv/www/docs/index.html"), file(&bytes));
    let mut expected =
        b"HTTP/1.1 200 Success\r\nContent-Type: text/html\r\nContent-Length: 6\r\n\r\n".to_vec();
    expected.extend_from_slice(&bytes);
    expected.extend_from_slice(b"\r\n\r\n");
    assert_eq!(sent, expected);
}

#[test]
fn directory_request_without_index_is_not_found() {
    // The candidate does not exist, so the file system gives no canonical form.
    let (sent, steps) = serve("GET /docs/ HTTP/1.1", None, file(b"unused"));
    let expected: &[u8] = b"HTTP/1.1 404 Not Found\r\nContent-Type: text/plain; charset=utf-8\r\nContent-Length: 13\r\n\r\n404 Not Found\r\n\r\n";
    assert_eq!(sent, expected.to_vec());
    assert_eq!(steps, 3);
}

#[test]
fn directory_without_trailing_separator_redirects() {
    let probe = Event::Probed(Probe {
        kind: Some(FileKind::Directory),
        index_exists: true,
        reading: Reading::ReadFailed,
    });
    let (sent, _) = serve("GET /docs HTTP/1.1", Some("/srv/www/docs"), probe);
    let expected: &[u8] = b"HTTP/1.1 301 Moved Permanently\r\nContent-Type: text/plain; charset=utf-8\r\nContent-Length: 0\r\n\r\n\r\n\r\n";
    assert_eq!(sent, expected.to_vec());
}

#[test]
fn unopenable_file_is_a_server_error_never_a_success() {
    let probe = Event::Probed(Probe {
        kind: Some(FileKind::File),
        index_exists: false,
        reading: Reading::OpenFailed,
    });
    let (sent, _) = serve("GET /secret.txt HTTP/1.1", Some("/srv/www/secret.txt"), probe);
    let expected: &[u8] = b"HTTP/1.1 500 Internal Server Error\r\nContent-Type: text/plain; charset=utf-8\r\nContent-Length: 25\r\n\r\n500 Internal Server Error\r\n\r\n";
    assert_eq!(sent, expected.to_vec());
    let probe = Event::Probed(Probe {
        kind: Some(FileKind::File),
        index_exists: false,
        reading: Reading::ReadFailed,
    });
    let (sent, _) = serve("GET /secret.txt HTTP/1.1", Some("/srv/www/secret.txt"), probe);
    assert!(sent.starts_with(b"HTTP/1.1 500 "));
}

#[test]
fn traversal_attempt_never_leaves_the_root() {
    let step = handle_client(
        ROOT,
        Connection::AwaitLine,
        Event::Line("GET /../../etc/passwd HTTP/1.1".to_string()),
    );
    assert_eq!(step.1, Action::Canonicalize { path: "/srv/www/etc/passwd".to_string() });
    let (sent, _) = serve("GET /../../etc/passwd HTTP/1.1", Some("/etc/passwd"), file(b"root:x:0:0"));
    assert!(sent.starts_with(b"HTTP/1.1 404 Not Found\r\n"));
}

#[test]
fn unknown_method_is_served_like_get() {
    let (get, _) = serve("GET /a.txt HTTP/1.1", Some("/srv/www/a.txt"), file(b"abc"));
    let (brew, _) = serve("BREW /a.txt HTTP/1.1", Some("/srv/www/a.txt"), file(b"abc"));
    assert_eq!(get, brew);
    let expected: &[u8] =
        b"HTTP/1.1 200 Success\r\nContent-Type: text/plain\r\nContent-Length: 3\r\n\r\nabc\r\n\r\n";
    assert_eq!(get, expected.to_vec());
}

#[test]
fn connections_do_not_disturb_each_other() {
    // Two connections for the same file, their steps taken in turn.
    let content = b"the same bytes for everyone".to_vec();
    let (mut first, _) = Connection::accept();
    let (mut second, _) = Connection::accept();
    let mut written_first = Vec::new();
    let mut written_second = Vec::new();
    let events = |k: usize| match k {
        0 => Event::Line("GET /shared.txt HTTP/1.1\r\n".to_string()),
        1 => Event::Canonical(Some("/srv/www/shared.txt".to_string())),
        2 => file(b"the same bytes for everyone"),
        3 => Event::Proceeded,
        _ => Event::Written,
    };
    for k in 0..5 {
        let step = handle_client(ROOT, first, events(k));
        first = step.0;
        if let Action::Write { data } = step.1 {
            written_first = data;
        }
        let step = handle_client(ROOT, second, events(k));
        second = step.0;
        if let Action::Write { data } = step.1 {
            written_second = data;
        }
    }
    assert!(first.is_closed() && second.is_closed());
    let mut expected =
        b"HTTP/1.1 200 Success\r\nContent-Type: text/plain\r\nContent-Length: 27\r\n\r\n".to_vec();
    expected.extend_from_slice(&content);
    expected.extend_from_slice(b"\r\n\r\n");
    assert_eq!(written_first, expected);
    assert_eq!(written_second, expected);
}
