//! What is sent back for a request.

use vstd::prelude::*;
use vstd::string::*;
use vstd::utf8::encode_utf8;

verus! {

/// The ways in which a request can fail.
#[derive(Clone, Copy, Debug, PartialEq, Eq, Structural)]
pub enum ErrorKind {
    /// The body went over the configured cap.
    BodyTooLarge,
    /// The file was there when it was looked up, but could not be read.
    FileReadFailure,
}

/// A static file that was found and read.
#[derive(Clone, Debug, PartialEq, Eq)]
pub struct ResolvedFile {
    /// The content of the file.
    pub bytes: Vec<u8>,
    /// The content type, inferred from the extension.
    pub content_type: String,
    /// When the file was last modified, as the file system reports it.
    pub last_modified: String,
}

/// Mathematical content of a [`ResolvedFile`].
pub ghost struct FileView {
    pub bytes: Seq<u8>,
    pub content_type: Seq<char>,
    pub last_modified: Seq<char>,
}

impl View for ResolvedFile {
    type V = FileView;

    open spec fn view(&self) -> FileView {
        FileView {
            bytes: self.bytes@,
            content_type: self.content_type@,
            last_modified: self.last_modified@,
        }
    }
}

/// The response to one request. Exactly one of these is produced per request.
#[derive(Clone, Debug, PartialEq, Eq)]
pub enum ResponseOutcome {
    /// The content of a static file.
    ServedFile(ResolvedFile),
    /// A fixed text that confirms the request was seen.
    Acknowledged(String),
    /// A failure, with a short message for the client.
    Error(ErrorKind, String),
}

/// Mathematical content of a [`ResponseOutcome`].
pub ghost enum OutcomeView {
    ServedFile(FileView),
    Acknowledged(Seq<char>),
    Error(ErrorKind, Seq<char>),
}

impl View for ResponseOutcome {
    type V = OutcomeView;

    open spec fn view(&self) -> OutcomeView {
        match self {
            ResponseOutcome::ServedFile(file) => OutcomeView::ServedFile(file@),
            ResponseOutcome::Acknowledged(text) => OutcomeView::Acknowledged(text@),
            ResponseOutcome::Error(kind, message) => OutcomeView::Error(*kind, message@),
        }
    }
}

impl OutcomeView {
    /// The HTTP status: 200 for a file or an acknowledgment, 400 for a body
    /// over the cap, 500 for a file that could not be read.
    pub open spec fn status(self) -> int {
        match self {
            OutcomeView::ServedFile(_) => 200,
            OutcomeView::Acknowledged(_) => 200,
            OutcomeView::Error(ErrorKind::BodyTooLarge, _) => 400,
            OutcomeView::Error(ErrorKind::FileReadFailure, _) => 500,
        }
    }

    /// The bytes of the response body: the file as it is, or the text in UTF-8.
    pub open spec fn body(self) -> Seq<u8> {
        match self {
            OutcomeView::ServedFile(file) => file.bytes,
            OutcomeView::Acknowledged(text) => encode_utf8(text),
            OutcomeView::Error(_, message) => encode_utf8(message),
        }
    }
}

/// The acknowledgment sent when there is nothing else to answer with.
pub open spec fn acknowledgment() -> OutcomeView {
    OutcomeView::Acknowledged("OK"@)
}

/// The answer to a body that went over the cap.
pub open spec fn body_too_large() -> OutcomeView {
    OutcomeView::Error(ErrorKind::BodyTooLarge, "body too large"@)
}

/// The answer when a resolved file could not be read. The message names no
/// path and carries no detail of the failure.
pub open spec fn file_read_failure() -> OutcomeView {
    OutcomeView::Error(ErrorKind::FileReadFailure, "ERROR"@)
}

impl ResponseOutcome {
    /// The HTTP status of this response.
    pub fn status(&self) -> (code: u16)
        ensures
            code == self@.status(),
    {
        match self {
            ResponseOutcome::ServedFile(_) => 200,
            ResponseOutcome::Acknowledged(_) => 200,
            ResponseOutcome::Error(ErrorKind::BodyTooLarge, _) => 400,
            ResponseOutcome::Error(ErrorKind::FileReadFailure, _) => 500,
        }
    }

    /// The bytes of the response body.
    pub fn body(&self) -> (bytes: Vec<u8>)
        ensures
            bytes@ == self@.body(),
    {
        match self {
            ResponseOutcome::ServedFile(file) => vstd::slice::slice_to_vec(file.bytes.as_slice()),
            ResponseOutcome::Acknowledged(text) => text.as_str().as_bytes_vec(),
            ResponseOutcome::Error(_, message) => message.as_str().as_bytes_vec(),
        }
    }

    /// The fixed acknowledgment, `OK`.
    pub fn acknowledged() -> (outcome: ResponseOutcome)
        ensures
            outcome@ == acknowledgment(),
    {
        ResponseOutcome::Acknowledged(String::from_str("OK"))
    }

    /// The rejection of a body that went over the cap.
    pub fn too_large() -> (outcome: ResponseOutcome)
        ensures
            outcome@ == body_too_large(),
    {
        ResponseOutcome::Error(ErrorKind::BodyTooLarge, String::from_str("body too large"))
    }

    /// The failure of reading a file that had been resolved.
    pub fn read_failure() -> (outcome: ResponseOutcome)
        ensures
            outcome@ == file_read_failure(),
    {
        ResponseOutcome::Error(ErrorKind::FileReadFailure, String::from_str("ERROR"))
    }
}

/// A response with status 200 and the given text as its body.
pub fn text200(message: &str) -> (outcome: ResponseOutcome)
    ensures
        outcome@ == OutcomeView::Acknowledged(message@),
        outcome@.status() == 200,
{
    ResponseOutcome::Acknowledged(String::from_str(message))
}

/// The response of the route behind the pipeline. The pipeline answers every
/// request itself, so this is never sent.
pub fn nop() -> (outcome: ResponseOutcome)
    ensures
        outcome@ == OutcomeView::Acknowledged("unreachable"@),
{
    text200("unreachable")
}

} // verus!
