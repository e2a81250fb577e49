//! The diagnostic record: what is written out about a request, line by line.
//!
//! The order of the lines is part of the contract, because the record is read
//! as a log: first the request line, then one line per header entry, then the
//! query, and for a mutating request with a body, the framed payload.

use vstd::prelude::*;
use vstd::string::*;
use crate::request::{IncomingRequest, RequestView};

verus! {

/// The first line of a record: time stamp, method and path, separated by one space.
pub open spec fn request_line(timestamp: Seq<char>, method: Seq<char>, path: Seq<char>) -> Seq<
    char,
> {
    timestamp + " "@ + method + " "@ + path
}

/// The line for one header entry: `key: value`.
pub open spec fn header_line(key: Seq<char>, value: Seq<char>) -> Seq<char> {
    key + ": "@ + value
}

/// One line per header entry, in the order of the entries. Entries with the
/// same name stay separate lines.
pub open spec fn header_lines(headers: Seq<(Seq<char>, Seq<char>)>) -> Seq<Seq<char>> {
    Seq::new(headers.len(), |i: int| header_line(headers[i].0, headers[i].1))
}

/// The query on a line of its own, if there is a query and it is not empty.
pub open spec fn query_lines(query: Option<Seq<char>>) -> Seq<Seq<char>> {
    match query {
        Some(q) => if q.len() > 0 {
            seq![q]
        } else {
            Seq::empty()
        },
        None => Seq::empty(),
    }
}

/// The part of the record that is known before any body is read.
pub open spec fn head_lines(timestamp: Seq<char>, request: RequestView) -> Seq<Seq<char>> {
    seq![request_line(timestamp, request.method, request.path)] + header_lines(request.headers)
        + query_lines(request.query)
}

/// A payload between delimiter lines, under its label.
pub open spec fn framed(text: Seq<char>) -> Seq<Seq<char>> {
    seq!["PAYLOAD:"@, "---"@, text, "---"@]
}

/// The line that reports why a resolved file could not be read.
pub open spec fn failure_line(detail: Seq<char>) -> Seq<char> {
    "ERROR: "@ + detail
}

/// The line that reports a body over the cap.
pub open spec fn rejection_line() -> Seq<char> {
    "ERROR: body too large"@
}

/// The text that `String::from_utf8_lossy` gives for these bytes: the bytes read as
/// UTF-8, with each invalid sequence replaced by U+FFFD.
pub uninterp spec fn lossy_text(bytes: Seq<u8>) -> Seq<char>;

/// The part of the record that shows the body: nothing for an empty body,
/// otherwise the body as text in a frame.
pub open spec fn body_lines(bytes: Seq<u8>) -> Seq<Seq<char>> {
    if bytes.len() == 0 {
        Seq::empty()
    } else {
        framed(lossy_text(bytes))
    }
}

/// The whole record of a request whose body, if any, was read to the end.
pub open spec fn record_lines(timestamp: Seq<char>, request: RequestView, body: Seq<u8>) -> Seq<
    Seq<char>,
> {
    head_lines(timestamp, request) + body_lines(body)
}

/// Decodes bytes as text by `String::from_utf8_lossy` of the standard library.
///
/// Trusted, not proved: the text is taken to depend on the bytes alone and is
/// called [`lossy_text`] of them. Nothing is claimed of what that text holds.
#[verifier::external_body]
fn decode_lossy(bytes: &[u8]) -> (text: String)
    ensures
        text@ == lossy_text(bytes@),
{
    String::from_utf8_lossy(bytes).into_owned()
}

/// Reads the clock by `chrono::Local::now` and writes the local time to the
/// second by `format("%Y-%m-%dT%H:%M:%S")`, as in `2024-05-17T09:30:00`.
///
/// Trusted, not proved, and nothing is claimed of the text: it depends on the
/// clock and on the time zone of the machine. `chrono` expects a clock that
/// stands at 1970 or later and zone data that it can read.
#[verifier::external_body]
pub(crate) fn local_timestamp() -> (stamp: String) {
    chrono::Local::now().format("%Y-%m-%dT%H:%M:%S").to_string()
}

/// Builds the first line of a record.
pub fn render_request_line(timestamp: &str, method: &str, path: &str) -> (line: String)
    ensures
        line@ == request_line(timestamp@, method@, path@),
{
    let mut line = String::from_str(timestamp);
    line.append(" ");
    line.append(method);
    line.append(" ");
    line.append(path);
    line
}

/// Builds the line for one header entry.
pub fn render_header_line(key: &str, value: &str) -> (line: String)
    ensures
        line@ == header_line(key@, value@),
{
    let mut line = String::from_str(key);
    line.append(": ");
    line.append(value);
    line
}

/// Builds the line that reports why a resolved file could not be read.
pub fn render_failure_line(detail: &str) -> (line: String)
    ensures
        line@ == failure_line(detail@),
{
    let mut line = String::from_str("ERROR: ");
    line.append(detail);
    line
}

/// Builds the line that reports a body over the cap.
pub fn render_rejection_line() -> (line: String)
    ensures
        line@ == rejection_line(),
{
    String::from_str("ERROR: body too large")
}

/// Builds the lines that are written before any body is read.
pub fn observe_head(request: &IncomingRequest, timestamp: &str) -> (lines: Vec<String>)
    ensures
        lines.deep_view() == head_lines(timestamp@, request@),
{
    let ghost expected = head_lines(timestamp@, request@);
    let mut lines: Vec<String> = Vec::new();
    lines.push(render_request_line(timestamp, request.method.as_str(), request.path.as_str()));
    let mut i: usize = 0;
    while i < request.headers.len()
        invariant
            i <= request.headers.len(),
            lines.len() == 1 + i,
            expected == head_lines(timestamp@, request@),
            forall|k: int| 0 <= k < lines.len() ==> (#[trigger] lines[k])@ == expected[k],
        decreases request.headers.len() - i,
    {
        let entry = &request.headers[i];
        lines.push(render_header_line(entry.0.as_str(), entry.1.as_str()));
        i += 1;
    }
    match &request.query {
        Some(q) => {
            if !q.as_str().is_empty() {
                lines.push(q.clone());
            }
        },
        None => {},
    }
    lines
}

/// Puts a payload text in its frame.
pub fn frame_body(text: String) -> (lines: Vec<String>)
    ensures
        lines.deep_view() == framed(text@),
{
    let mut lines: Vec<String> = Vec::new();
    lines.push(String::from_str("PAYLOAD:"));
    lines.push(String::from_str("---"));
    lines.push(text);
    lines.push(String::from_str("---"));
    lines
}

/// Builds the lines that show a body. Bytes that are not valid text are shown
/// with replacement characters; they are never a failure.
pub fn observe_body(bytes: &[u8]) -> (lines: Vec<String>)
    ensures
        lines.deep_view() == body_lines(bytes@),
{
    if bytes.len() == 0 {
        Vec::new()
    } else {
        frame_body(decode_lossy(bytes))
    }
}

} // verus!
