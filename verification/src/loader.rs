//! From what the file system reports of a resolved path to the content that
//! is served, and the media type that is announced for it.

use crate::error::{HttpErrorCode, HttpResult};
use vstd::prelude::*;

verus! {

/// What the metadata of a path says it is.
#[derive(Debug, Clone, Copy, PartialEq, Eq, Structural)]
pub enum FileKind {
    /// A directory.
    Directory,
    /// Anything that is not a directory.
    File,
}

/// How the attempt to open a path and read it to its end went.
#[derive(Debug, PartialEq, Eq)]
pub enum Reading {
    /// The path could not be opened.
    OpenFailed,
    /// The path was opened, but reading stopped before its end.
    ReadFailed,
    /// The path was opened and read to its end; these are its bytes.
    Complete(Vec<u8>),
}

/// The mathematical value of a [`Reading`].
pub enum ReadingView {
    OpenFailed,
    ReadFailed,
    Complete(Seq<u8>),
}

impl View for Reading {
    type V = ReadingView;

    open spec fn view(&self) -> ReadingView {
        match self {
            Reading::OpenFailed => ReadingView::OpenFailed,
            Reading::ReadFailed => ReadingView::ReadFailed,
            Reading::Complete(bytes) => ReadingView::Complete(bytes@),
        }
    }
}

/// What the file system reports of a resolved path.
#[derive(Debug, PartialEq, Eq)]
pub struct Probe {
    /// The kind of the path, or `None` if its metadata could not be read.
    pub kind: Option<FileKind>,
    /// Whether the default document exists below the path.
    pub index_exists: bool,
    /// How opening and reading the path went.
    pub reading: Reading,
}

/// The mathematical value of a [`Probe`].
pub struct ProbeView {
    pub kind: Option<FileKind>,
    pub index_exists: bool,
    pub reading: ReadingView,
}

impl View for Probe {
    type V = ProbeView;

    open spec fn view(&self) -> ProbeView {
        ProbeView { kind: self.kind, index_exists: self.index_exists, reading: self.reading@ }
    }
}

/// The status of a response that serves content.
#[derive(Debug, Clone, Copy, PartialEq, Eq, Structural)]
pub enum Status {
    /// The file is served.
    Success,
    /// The path is a directory that holds the default document; the client
    /// is to ask for the directory itself.
    Redirect,
}

impl Status {
    /// The numeric status.
    pub open spec fn status(self) -> nat {
        match self {
            Status::Success => 200,
            Status::Redirect => 301,
        }
    }

    /// The reason phrase that goes with the status.
    pub open spec fn reason(self) -> Seq<char> {
        match self {
            Status::Success => "Success"@,
            Status::Redirect => "Moved Permanently"@,
        }
    }

    /// The numeric status.
    pub fn status_code(&self) -> (code: u32)
        ensures
            code == self.status(),
    {
        match self {
            Status::Success => 200,
            Status::Redirect => 301,
        }
    }

    /// The reason phrase that goes with the status.
    pub fn status_text(&self) -> (text: &'static str)
        ensures
            text@ == self.reason(),
    {
        match self {
            Status::Success => "Success",
            Status::Redirect => "Moved Permanently",
        }
    }
}

/// The outcome of the decision table, rows in the order of their priority:
///
/// | metadata            | index document | opening and reading | outcome                 |
/// |---------------------|----------------|---------------------|-------------------------|
/// | unreadable          |                | open failed         | `NotFound`              |
/// | directory           | exists         |                     | redirect, empty body    |
/// | directory           | missing        |                     | `NotFound`              |
/// | anything else       |                | read to the end     | success, the bytes read |
/// | anything else       |                | read stopped early  | `InternalServerError`   |
/// | readable, no directory |             | open failed         | `InternalServerError`   |
///
/// Content is served only where reading reached the end of the file.
pub open spec fn classification(probe: ProbeView) -> Result<(Status, Seq<u8>), HttpErrorCode> {
    match probe.kind {
        Some(FileKind::Directory) => if probe.index_exists {
            Ok((Status::Redirect, Seq::empty()))
        } else {
            Err(HttpErrorCode::NotFound)
        },
        Some(FileKind::File) => match probe.reading {
            ReadingView::Complete(bytes) => Ok((Status::Success, bytes)),
            ReadingView::ReadFailed => Err(HttpErrorCode::InternalServerError),
            ReadingView::OpenFailed => Err(HttpErrorCode::InternalServerError),
        },
        None => match probe.reading {
            ReadingView::Complete(bytes) => Ok((Status::Success, bytes)),
            ReadingView::ReadFailed => Err(HttpErrorCode::InternalServerError),
            ReadingView::OpenFailed => Err(HttpErrorCode::NotFound),
        },
    }
}

/// Decides from a probe what is served.
pub fn classify(probe: Probe) -> (r: HttpResult<(Status, Vec<u8>)>)
    ensures
        classification(probe@) == match r {
            Ok((status, body)) => Ok::<(Status, Seq<u8>), HttpErrorCode>((status, body@)),
            Err(e) => Err::<(Status, Seq<u8>), HttpErrorCode>(e),
        },
{
    match probe.kind {
        Some(FileKind::Directory) => {
            if probe.index_exists {
                Ok((Status::Redirect, Vec::new()))
            } else {
                Err(HttpErrorCode::NotFound)
            }
        },
        Some(FileKind::File) => match probe.reading {
            Reading::Complete(bytes) => Ok((Status::Success, bytes)),
            Reading::ReadFailed => Err(HttpErrorCode::InternalServerError),
            Reading::OpenFailed => Err(HttpErrorCode::InternalServerError),
        },
        None => match probe.reading {
            Reading::Complete(bytes) => Ok((Status::Success, bytes)),
            Reading::ReadFailed => Err(HttpErrorCode::InternalServerError),
            Reading::OpenFailed => Err(HttpErrorCode::NotFound),
        },
    }
}

/// Content is never served from a reading that stopped early: a success
/// carries exactly the bytes of a reading that reached the end, and a path
/// whose metadata is readable but which cannot be opened or read to its end
/// is answered with `InternalServerError`.
pub proof fn lemma_success_is_complete(probe: ProbeView)
    ensures
        classification(probe) matches Ok((Status::Success, body)) ==> probe.reading
            == ReadingView::Complete(body),
        probe.kind == Some(FileKind::File) && !(probe.reading is Complete) ==> classification(probe)
            == Err::<(Status, Seq<u8>), HttpErrorCode>(HttpErrorCode::InternalServerError),
{
}

/// The media types that `mime_guess` lists for the extension of `path`, in
/// its order; empty where it knows none.
pub uninterp spec fn media_type_guesses(path: Seq<char>) -> Seq<Seq<char>>;

/// The media type that is announced where the guess is of no use.
pub open spec fn default_media_type() -> Seq<char> {
    "text/plain; charset=utf-8"@
}

/// The media type that is announced for a list of guesses: the guess if
/// there is exactly one, the default if there is none or more than one.
pub open spec fn chosen_media_type(guesses: Seq<Seq<char>>) -> Seq<char> {
    if guesses.len() == 1 {
        guesses[0]
    } else {
        default_media_type()
    }
}

/// `mime_guess::from_path(path).iter()`: the media types that the crate's
/// table lists for the extension of `path`, in the table's order, each
/// written out as a string. The table is fixed and every entry of it is a
/// well-formed media type, so the call returns for every path, and the same
/// path always gives the same list; nothing is read from disk.
#[verifier::external_body]
fn guess_media_types(path: &str) -> (guesses: Vec<String>)
    ensures
        guesses.deep_view() == media_type_guesses(path@),
{
    mime_guess::from_path(path).iter().map(|mime| mime.to_string()).collect()
}

/// The media type that is announced for a list of guesses.
pub fn choose_media_type(guesses: Vec<String>) -> (media_type: String)
    ensures
        media_type@ == chosen_media_type(guesses.deep_view()),
{
    let mut guesses = guesses;
    if guesses.len() == 1 {
        guesses.remove(0)
    } else {
        String::from_str("text/plain; charset=utf-8")
    }
}

/// The media type that is announced for the file at `path`.
pub fn media_type_for(path: &str) -> (media_type: String)
    ensures
        media_type@ == chosen_media_type(media_type_guesses(path@)),
{
    choose_media_type(guess_media_types(path))
}

} // verus!
