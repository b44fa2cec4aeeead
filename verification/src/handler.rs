//! One connection, from the request line to the response.
//!
//! The handler does no reading and no writing itself. It is a state machine
//! that is told what happened and answers with what is to be done next: the
//! caller performs that action and reports its outcome as the next event,
//! until the action is to close the connection.

use crate::error::{error_response, lemma_error_body_is_not_empty, HttpErrorCode};
use crate::loader::{
    chosen_media_type, classification, classify, default_media_type, media_type_for,
    media_type_guesses, FileKind, Probe, ProbeView, ReadingView, Status,
};
use crate::request::{parse_line, HttpRequest, HttpRequestView};
use crate::resolver::{
    candidate, candidate_path, default_document, lemma_candidate_descends_from_root,
    descends_from, resolution, resolve, separator, within_root,
};
use crate::response::{content_response, HttpResponse, HttpResponseView};
use crate::text::split;
use vstd::prelude::*;

verus! {

/// How far a connection has come.
#[derive(Debug, PartialEq, Eq)]
pub enum Connection {
    /// Nothing has been read yet; the request line is awaited.
    AwaitLine,
    /// The request line is parsed; the canonical form of the candidate path
    /// is awaited.
    Parsed { request: HttpRequest },
    /// The path is resolved within the root; the report of the file system
    /// on it is awaited.
    Resolved { path: String },
    /// The content is loaded; the response is to be built from it.
    Loaded { status: Status, media_type: String, body: Vec<u8> },
    /// The response is fixed and has been handed out for writing; the
    /// outcome of the write is awaited.
    Responded { response: HttpResponse },
    /// The connection is done.
    Closed,
}

/// The mathematical value of a [`Connection`].
pub enum ConnectionView {
    AwaitLine,
    Parsed { request: HttpRequestView },
    Resolved { path: Seq<char> },
    Loaded { status: Status, media_type: Seq<char>, body: Seq<u8> },
    Responded { response: HttpResponseView },
    Closed,
}

impl View for Connection {
    type V = ConnectionView;

    open spec fn view(&self) -> ConnectionView {
        match self {
            Connection::AwaitLine => ConnectionView::AwaitLine,
            Connection::Parsed { request } => ConnectionView::Parsed { request: request@ },
            Connection::Resolved { path } => ConnectionView::Resolved { path: path@ },
            Connection::Loaded { status, media_type, body } => ConnectionView::Loaded {
                status: *status,
                media_type: media_type@,
                body: body@,
            },
            Connection::Responded { response } => ConnectionView::Responded {
                response: response@,
            },
            Connection::Closed => ConnectionView::Closed,
        }
    }
}

/// What the caller reports.
#[derive(Debug, PartialEq, Eq)]
pub enum Event {
    /// The first line of the request was read.
    Line(String),
    /// Reading from the socket failed.
    ReadFailed,
    /// The canonical form of the candidate path, or `None` if the file
    /// system gave none.
    Canonical(Option<String>),
    /// What the file system reports of the resolved path.
    Probed(Probe),
    /// There was nothing to do.
    Proceeded,
    /// The response was written.
    Written,
    /// Writing to the socket failed.
    WriteFailed,
}

/// The mathematical value of an [`Event`].
pub enum EventView {
    Line(Seq<char>),
    ReadFailed,
    Canonical(Option<Seq<char>>),
    Probed(ProbeView),
    Proceeded,
    Written,
    WriteFailed,
}

impl View for Event {
    type V = EventView;

    open spec fn view(&self) -> EventView {
        match self {
            Event::Line(line) => EventView::Line(line@),
            Event::ReadFailed => EventView::ReadFailed,
            Event::Canonical(canonical) => EventView::Canonical(
                match canonical {
                    Some(path) => Some(path@),
                    None => None,
                },
            ),
            Event::Probed(probe) => EventView::Probed(probe@),
            Event::Proceeded => EventView::Proceeded,
            Event::Written => EventView::Written,
            Event::WriteFailed => EventView::WriteFailed,
        }
    }
}

/// What the caller is to do next.
#[derive(Debug, PartialEq, Eq)]
pub enum Action {
    /// Read the first line from the socket and report `Line` or `ReadFailed`.
    ReadLine,
    /// Ask the file system for the canonical form of `path` and report
    /// `Canonical`.
    Canonicalize { path: String },
    /// Read the metadata of `path`, look whether `index` exists, open `path`
    /// and read it to its end, and report `Probed`.
    Probe { path: String, index: String },
    /// Nothing is to be done outside; report `Proceeded`.
    Proceed,
    /// Write `data` to the socket and report `Written` or `WriteFailed`.
    Write { data: Vec<u8> },
    /// Close the connection. Nothing is to be reported.
    Close,
}

/// The mathematical value of an [`Action`].
pub enum ActionView {
    ReadLine,
    Canonicalize { path: Seq<char> },
    Probe { path: Seq<char>, index: Seq<char> },
    Proceed,
    Write { data: Seq<u8> },
    Close,
}

impl View for Action {
    type V = ActionView;

    open spec fn view(&self) -> ActionView {
        match self {
            Action::ReadLine => ActionView::ReadLine,
            Action::Canonicalize { path } => ActionView::Canonicalize { path: path@ },
            Action::Probe { path, index } => ActionView::Probe { path: path@, index: index@ },
            Action::Proceed => ActionView::Proceed,
            Action::Write { data } => ActionView::Write { data: data@ },
            Action::Close => ActionView::Close,
        }
    }
}

/// The path of the default document below the directory `path`.
pub open spec fn index_below(path: Seq<char>) -> Seq<char> {
    path + seq![separator()] + default_document()
}

/// The media type that is announced for content: for a file, what the guess
/// for its path gives; for a redirect, which has no body, the default.
pub open spec fn announced_media_type(status: Status, path: Seq<char>) -> Seq<char> {
    match status {
        Status::Success => chosen_media_type(media_type_guesses(path)),
        Status::Redirect => default_media_type(),
    }
}

/// The response is fixed: it is handed out for writing, framed for the wire.
pub open spec fn respond(response: HttpResponseView) -> (ConnectionView, ActionView) {
    (ConnectionView::Responded { response }, ActionView::Write { data: response.wire() })
}

/// A step has failed: the response that answers the failure is fixed.
pub open spec fn fail(code: HttpErrorCode) -> (ConnectionView, ActionView) {
    respond(error_response(code))
}

/// The state that follows `state` on `event`, and the action that goes with
/// it, for a server of the directory `root`.
///
/// Each state awaits one event and, on it, runs one step of the pipeline.
/// Where the step succeeds the connection moves to the next state; where it
/// fails, and where the event is not the awaited one, the connection moves
/// straight to `Responded` with the response that answers the failure. A
/// failed read ends the connection without a response. From `Responded`
/// every event closes the connection, whatever became of the write.
pub open spec fn step(root: Seq<char>, state: ConnectionView, event: EventView) -> (
    ConnectionView,
    ActionView,
) {
    match state {
        ConnectionView::AwaitLine => match event {
            EventView::Line(line) => match parse_line(line) {
                Ok(request) => (
                    ConnectionView::Parsed { request },
                    ActionView::Canonicalize { path: candidate(root, request.resource) },
                ),
                Err(code) => fail(code),
            },
            EventView::ReadFailed => (ConnectionView::Closed, ActionView::Close),
            _ => fail(HttpErrorCode::InternalServerError),
        },
        ConnectionView::Parsed { request } => match event {
            EventView::Canonical(canonical) => match resolution(root, canonical) {
                Ok(path) => (
                    ConnectionView::Resolved { path },
                    ActionView::Probe { path, index: index_below(path) },
                ),
                Err(code) => fail(code),
            },
            _ => fail(HttpErrorCode::InternalServerError),
        },
        ConnectionView::Resolved { path } => match event {
            EventView::Probed(probe) => match classification(probe) {
                Ok((status, body)) => (
                    ConnectionView::Loaded {
                        status,
                        media_type: announced_media_type(status, path),
                        body,
                    },
                    ActionView::Proceed,
                ),
                Err(code) => fail(code),
            },
            _ => fail(HttpErrorCode::InternalServerError),
        },
        ConnectionView::Loaded { status, media_type, body } => match event {
            EventView::Proceeded => respond(content_response(status, media_type, body)),
            _ => fail(HttpErrorCode::InternalServerError),
        },
        ConnectionView::Responded { .. } => (ConnectionView::Closed, ActionView::Close),
        ConnectionView::Closed => (ConnectionView::Closed, ActionView::Close),
    }
}

/// How many steps of the pipeline lie behind a state.
pub open spec fn progress(state: ConnectionView) -> nat {
    match state {
        ConnectionView::AwaitLine => 0,
        ConnectionView::Parsed { .. } => 1,
        ConnectionView::Resolved { .. } => 2,
        ConnectionView::Loaded { .. } => 3,
        ConnectionView::Responded { .. } => 4,
        ConnectionView::Closed => 5,
    }
}

/// A state is sound for a root when the path it holds, if it holds a
/// resolved one, lies within the root.
pub open spec fn confined(root: Seq<char>, state: ConnectionView) -> bool {
    state matches ConnectionView::Resolved { path } ==> within_root(root, path)
}

impl Connection {
    /// A connection that was just accepted, and the first thing to do on it.
    pub fn accept() -> (r: (Connection, Action))
        ensures
            r.0@ == ConnectionView::AwaitLine,
            r.1@ == ActionView::ReadLine,
    {
        (Connection::AwaitLine, Action::ReadLine)
    }

    /// Tells whether the connection is done.
    pub fn is_closed(&self) -> (r: bool)
        ensures
            r == (self@ == ConnectionView::Closed),
    {
        match self {
            Connection::Closed => true,
            _ => false,
        }
    }
}

/// Fixes `response` as the answer and hands it out for writing.
fn respond_with(response: HttpResponse) -> (r: (Connection, Action))
    ensures
        (r.0@, r.1@) == respond(response@),
{
    let mut data: Vec<u8> = Vec::new();
    response.to_data(&mut data);
    (Connection::Responded { response }, Action::Write { data })
}

/// Fixes the response that answers `code` and hands it out for writing.
fn fail_with(code: HttpErrorCode) -> (r: (Connection, Action))
    ensures
        (r.0@, r.1@) == fail(code),
{
    respond_with(code.to_http_response())
}

/// Takes a connection one step further: from its state and what the caller
/// reports to the state that follows and what the caller is to do next.
pub fn handle_client(root: &str, state: Connection, event: Event) -> (r: (Connection, Action))
    ensures
        (r.0@, r.1@) == step(root@, state@, event@),
{
    match state {
        Connection::AwaitLine => match event {
            Event::Line(line) => match HttpRequest::parse(line.as_str()) {
                Ok(request) => {
                    let path = candidate_path(root, request.resource.as_str());
                    (Connection::Parsed { request }, Action::Canonicalize { path })
                },
                Err(code) => fail_with(code),
            },
            Event::ReadFailed => (Connection::Closed, Action::Close),
            _ => fail_with(HttpErrorCode::InternalServerError),
        },
        Connection::Parsed { request } => match event {
            Event::Canonical(canonical) => match resolve(root, canonical) {
                Ok(path) => {
                    let mut index = path.clone();
                    index.push('/');
                    index.append("index.html");
                    proof {
                        reveal_strlit("index.html");
                        assert(index@ =~= index_below(path@));
                    }
                    let probed = path.clone();
                    (Connection::Resolved { path }, Action::Probe { path: probed, index })
                },
                Err(code) => fail_with(code),
            },
            _ => fail_with(HttpErrorCode::InternalServerError),
        },
        Connection::Resolved { path } => match event {
            Event::Probed(probe) => match classify(probe) {
                Ok((status, body)) => {
                    let media_type = match status {
                        Status::Success => media_type_for(path.as_str()),
                        Status::Redirect => String::from_str("text/plain; charset=utf-8"),
                    };
                    (Connection::Loaded { status, media_type, body }, Action::Proceed)
                },
                Err(code) => fail_with(code),
            },
            _ => fail_with(HttpErrorCode::InternalServerError),
        },
        Connection::Loaded { status, media_type, body } => match event {
            Event::Proceeded => respond_with(HttpResponse::new(status, media_type.as_str(), body)),
            _ => fail_with(HttpErrorCode::InternalServerError),
        },
        Connection::Responded { .. } => (Connection::Closed, Action::Close),
        Connection::Closed => (Connection::Closed, Action::Close),
    }
}

/// No request reaches outside the root. Whatever the state and the event:
/// a path that is handed out to be made canonical descends from the root by
/// its spelling, and a path that is resolved, and with it every path that is
/// handed out to be probed, lies within the root.
pub proof fn lemma_requests_stay_within_root(
    root: Seq<char>,
    state: ConnectionView,
    event: EventView,
)
    ensures
        confined(root, step(root, state, event).0),
        step(root, state, event).1 matches ActionView::Canonicalize { path } ==> descends_from(
            root,
            path,
        ),
        step(root, state, event).1 matches ActionView::Probe { path, index } ==> within_root(
            root,
            path,
        ),
{
    if let ConnectionView::AwaitLine = state {
        if let EventView::Line(line) = event {
            if let Ok(request) = parse_line(line) {
                lemma_candidate_descends_from_root(root, request.resource);
            }
        }
    }
}

/// Every step takes the connection further, until it is closed: no step is
/// taken twice, and after five steps at most the connection is done.
pub proof fn lemma_step_advances(root: Seq<char>, state: ConnectionView, event: EventView)
    ensures
        state != ConnectionView::Closed ==> progress(step(root, state, event).0) > progress(
            state,
        ),
        state == ConnectionView::Closed ==> step(root, state, event).0 == ConnectionView::Closed,
        (step(root, state, event).1 == ActionView::Close) <==> (step(root, state, event).0
            == ConnectionView::Closed),
{
}

/// No connection is dropped without an answer, unless the socket fails:
/// before a response is fixed, every event but a failed read of the request
/// line leads to the next step of the pipeline or to a response, and a
/// response is always handed out for writing exactly as it is framed.
pub proof fn lemma_always_answered(root: Seq<char>, state: ConnectionView, event: EventView)
    requires
        progress(state) < 4,
        !(state == ConnectionView::AwaitLine && event == EventView::ReadFailed),
    ensures
        step(root, state, event).0 != ConnectionView::Closed,
        step(root, state, event).0 matches ConnectionView::Responded { response } ==> step(
            root,
            state,
            event,
        ).1 == (ActionView::Write { data: response.wire() }),
{
}

/// A request line with fewer than three pieces is answered with a bad
/// request, whose body is not empty.
pub proof fn lemma_short_line_is_bad_request(root: Seq<char>, line: Seq<char>)
    requires
        split(line, ' ').len() < 3,
    ensures
        step(root, ConnectionView::AwaitLine, EventView::Line(line)) == fail(
            HttpErrorCode::BadRequest,
        ),
        error_response(HttpErrorCode::BadRequest).status_code == 400,
        error_response(HttpErrorCode::BadRequest).body.len() > 0,
{
    lemma_error_body_is_not_empty(HttpErrorCode::BadRequest);
}

/// A file within the root is served whole. Where the request line parses,
/// the canonical form of the candidate lies within the root, the path is no
/// directory and was read to its end, the four steps of the pipeline lead to
/// the response that carries exactly the bytes read, with the status of a
/// success and the media type chosen for the path, handed out as framed.
pub proof fn lemma_file_is_served(
    root: Seq<char>,
    line: Seq<char>,
    path: Seq<char>,
    probe: ProbeView,
    bytes: Seq<u8>,
)
    requires
        parse_line(line) is Ok,
        within_root(root, path),
        probe.kind != Some(FileKind::Directory),
        probe.reading == ReadingView::Complete(bytes),
    ensures
        ({
            let parsed = step(root, ConnectionView::AwaitLine, EventView::Line(line)).0;
            let resolved = step(root, parsed, EventView::Canonical(Some(path))).0;
            let loaded = step(root, resolved, EventView::Probed(probe)).0;
            step(root, loaded, EventView::Proceeded) == respond(
                content_response(
                    Status::Success,
                    chosen_media_type(media_type_guesses(path)),
                    bytes,
                ),
            )
        }),
{
}

/// What the file system does not know is not found. Where the request line
/// parses and the candidate has no canonical form, or one outside the root,
/// the answer is the response for `NotFound`.
pub proof fn lemma_unresolved_is_not_found(
    root: Seq<char>,
    line: Seq<char>,
    canonical: Option<Seq<char>>,
)
    requires
        parse_line(line) is Ok,
        canonical matches Some(path) ==> !within_root(root, path),
    ensures
        ({
            let parsed = step(root, ConnectionView::AwaitLine, EventView::Line(line)).0;
            step(root, parsed, EventView::Canonical(canonical)) == fail(HttpErrorCode::NotFound)
        }),
{
}

} // verus!
