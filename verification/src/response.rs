//! What goes back to the transport for what a handler returned.

use crate::parts::{is_short, NAME_LIMIT};
use http::header::{HeaderName, HeaderValue};
use http::StatusCode;
use vstd::prelude::*;
use vstd::string::*;

verus! {

/// What the `http` crate says of a short header name: whether it takes it.
pub uninterp spec fn accepted_header_name(name: Seq<char>) -> bool;

/// Calls `HeaderName::from_bytes` and keeps whether it succeeded. The call
/// panics on a name of `NAME_LIMIT` bytes or more.
#[verifier::external_body]
fn takes_name(name: &str) -> (ok: bool)
    requires
        is_short(name@),
    ensures
        ok == accepted_header_name(name@),
{
    HeaderName::from_bytes(name.as_bytes()).is_ok()
}

/// Whether `b` may stand in a header value: a horizontal tab, or any byte
/// from the space on but for DEL.
pub open spec fn is_value_byte(b: u8) -> bool {
    b == 9 || (b >= 32 && b != 127)
}

/// Whether every byte of `value`, encoded as UTF-8, may stand in a header
/// value.
pub open spec fn accepted_header_value(value: Seq<char>) -> bool {
    forall|i: int|
        0 <= i < vstd::utf8::encode_utf8(value).len() ==> is_value_byte(
            #[trigger] vstd::utf8::encode_utf8(value)[i],
        )
}

/// Calls `HeaderValue::from_str` and keeps whether it succeeded. Trusted: it
/// succeeds exactly when every byte of `value` may stand in a header value.
#[verifier::external_body]
fn takes_value(value: &str) -> (ok: bool)
    ensures
        ok == accepted_header_value(value@),
{
    HeaderValue::from_str(value).is_ok()
}

/// Calls `StatusCode::from_u16` and, where it succeeds, `StatusCode::as_u16`
/// on what it made. Trusted: the codes from 100 to 599 are taken, and each is
/// held as it was given.
#[verifier::external_body]
fn status_code(code: u16) -> (status: Option<u16>)
    ensures
        status == (if 100 <= code < 600 {
            Some(code)
        } else {
            None
        }),
{
    StatusCode::from_u16(code).ok().map(|status| status.as_u16())
}

/// What a handler returned for a request.
#[derive(Debug)]
pub struct HandlerResponse {
    /// The status code.
    pub status: u32,
    /// The header names, each with its values in the order in which they are
    /// to be sent.
    pub headers: Vec<(String, Vec<String>)>,
    /// The bytes that the handler's body writer wrote, or `None` where the
    /// writer failed.
    pub body: Option<Vec<u8>>,
}

pub struct HandlerResponseView {
    pub status: u32,
    pub headers: Seq<(Seq<char>, Seq<Seq<char>>)>,
    pub body: Option<Seq<u8>>,
}

impl View for HandlerResponse {
    type V = HandlerResponseView;

    open spec fn view(&self) -> HandlerResponseView {
        HandlerResponseView {
            status: self.status,
            headers: self.headers.deep_view(),
            body: match self.body {
                Some(bytes) => Some(bytes@),
                None => None,
            },
        }
    }
}

/// What the transport is to send.
#[derive(Debug, PartialEq, Eq)]
pub struct OutgoingResponse {
    pub status: u16,
    /// The header lines in the order in which they are sent. A name may
    /// occur more than once.
    pub headers: Vec<(String, String)>,
    pub body: Vec<u8>,
}

pub struct OutgoingResponseView {
    pub status: u16,
    pub headers: Seq<(Seq<char>, Seq<char>)>,
    pub body: Seq<u8>,
}

impl View for OutgoingResponse {
    type V = OutgoingResponseView;

    open spec fn view(&self) -> OutgoingResponseView {
        OutgoingResponseView {
            status: self.status,
            headers: self.headers.deep_view(),
            body: self.body@,
        }
    }
}

/// A response together with what the server is to record of a failure.
#[derive(Debug, PartialEq, Eq)]
pub struct Reply {
    pub response: OutgoingResponse,
    /// The message for the server's error log. `None` where the handler's
    /// own response is sent.
    pub error: Option<String>,
}

pub struct ReplyView {
    pub response: OutgoingResponseView,
    pub error: Option<Seq<char>>,
}

impl View for Reply {
    type V = ReplyView;

    open spec fn view(&self) -> ReplyView {
        ReplyView {
            response: self.response@,
            error: match self.error {
                Some(message) => Some(message@),
                None => None,
            },
        }
    }
}

/// What the transport refuses in a header line.
#[derive(Clone, Copy, Debug, PartialEq, Eq, Structural)]
pub enum LineFault {
    Name,
    Value,
}

/// The response that is sent for every failure: status 500, no headers, and
/// a fixed body.
pub open spec fn fallback() -> OutgoingResponseView {
    OutgoingResponseView {
        status: 500,
        headers: Seq::empty(),
        body: vstd::utf8::encode_utf8("Internal Server Error"@),
    }
}

/// The body of the fallback is the text `Internal Server Error` in ASCII.
pub proof fn lemma_fallback_body()
    ensures
        fallback().body == seq![
            73u8, 110u8, 116u8, 101u8, 114u8, 110u8, 97u8, 108u8, 32u8, 83u8, 101u8, 114u8, 118u8,
            101u8, 114u8, 32u8, 69u8, 114u8, 114u8, 111u8, 114u8,
        ],
{
    reveal_strlit("Internal Server Error");
    let text = "Internal Server Error";
    assert(is_ascii(text));
    is_ascii_spec_bytes(text);
    assert(fallback().body =~= seq![
        73u8, 110u8, 116u8, 101u8, 114u8, 110u8, 97u8, 108u8, 32u8, 83u8, 101u8, 114u8, 118u8,
        101u8, 114u8, 32u8, 69u8, 114u8, 114u8, 111u8, 114u8,
    ]);
}

/// The reply to a failure that is recorded as `message`.
pub open spec fn failure(message: Seq<char>) -> ReplyView {
    ReplyView { response: fallback(), error: Some(message) }
}

/// The lines of one header: one line for each value, in the order of the
/// values.
pub open spec fn entry_lines(entry: (Seq<char>, Seq<Seq<char>>)) -> Seq<(Seq<char>, Seq<char>)> {
    entry.1.map_values(|value: Seq<char>| (entry.0, value))
}

/// The lines of a list of headers: the lines of the first, then those of the
/// second, and so on.
pub open spec fn lines_of(headers: Seq<(Seq<char>, Seq<Seq<char>>)>) -> Seq<(Seq<char>, Seq<char>)>
    decreases headers.len(),
{
    if headers.len() == 0 {
        Seq::empty()
    } else {
        lines_of(headers.drop_last()) + entry_lines(headers.last())
    }
}

/// Whether the transport takes `name` as a header name.
pub open spec fn name_taken(name: Seq<char>) -> bool {
    is_short(name) && accepted_header_name(name)
}

/// What is at fault in a header line, if anything. The name is judged first.
pub open spec fn line_fault(line: (Seq<char>, Seq<char>)) -> Option<LineFault> {
    if !name_taken(line.0) {
        Some(LineFault::Name)
    } else if !accepted_header_value(line.1) {
        Some(LineFault::Value)
    } else {
        None
    }
}

/// The fault of the first line that has one.
pub open spec fn first_fault(lines: Seq<(Seq<char>, Seq<char>)>) -> Option<LineFault>
    decreases lines.len(),
{
    if lines.len() == 0 {
        None
    } else {
        match first_fault(lines.drop_last()) {
            Some(fault) => Some(fault),
            None => line_fault(lines.last()),
        }
    }
}

/// Whether the transport can send a response as it stands.
pub open spec fn sendable(response: OutgoingResponseView) -> bool {
    &&& 100 <= response.status < 600
    &&& forall|i: int|
        0 <= i < response.headers.len() ==> line_fault(#[trigger] response.headers[i]) is None
}

/// The reply to a handler's response with the given status, header lines and
/// body, where `fault` is what the transport finds at fault in the lines.
///
/// A body that could not be written, a status outside 100 to 599 and a line
/// at fault each give the fallback, and are looked for in that order.
pub open spec fn reply_for(
    status: u32,
    lines: Seq<(Seq<char>, Seq<char>)>,
    fault: Option<LineFault>,
    body: Option<Seq<u8>>,
) -> ReplyView {
    if body is None {
        failure("Error writing body"@)
    } else if !(100 <= status < 600) {
        failure("invalid status code"@)
    } else if fault == Some(LineFault::Name) {
        failure("invalid HTTP header name"@)
    } else if fault == Some(LineFault::Value) {
        failure("failed to parse header value"@)
    } else {
        ReplyView {
            response: OutgoingResponseView {
                status: status as u16,
                headers: lines,
                body: body->0,
            },
            error: None,
        }
    }
}

/// The reply to what a handler returned.
pub open spec fn reply_to(response: HandlerResponseView) -> ReplyView {
    reply_for(
        response.status,
        lines_of(response.headers),
        first_fault(lines_of(response.headers)),
        response.body,
    )
}

/// Records `message` and gives the fallback response.
pub fn error_response(message: &str) -> (reply: Reply)
    ensures
        reply@ == failure(message@),
{
    let body = "Internal Server Error".as_bytes_vec();
    let headers: Vec<(String, String)> = Vec::new();
    assert(headers.deep_view() =~= Seq::empty());
    Reply {
        response: OutgoingResponse { status: 500, headers, body },
        error: Some(message.to_owned()),
    }
}

/// The header lines of a handler's response: one line for each value of each
/// header, in the order in which the headers and their values stand.
pub fn header_lines(headers: &Vec<(String, Vec<String>)>) -> (lines: Vec<(String, String)>)
    ensures
        lines.deep_view() == lines_of(headers.deep_view()),
{
    let mut lines: Vec<(String, String)> = Vec::new();
    let mut i: usize = 0;
    assert(headers.deep_view().take(0) =~= Seq::empty());
    assert(lines.deep_view() =~= Seq::empty());
    while i < headers.len()
        invariant
            i <= headers.len(),
            lines.deep_view() == lines_of(headers.deep_view().take(i as int)),
        decreases headers.len() - i,
    {
        let key = &headers[i].0;
        let values = &headers[i].1;
        let ghost done = lines.deep_view();
        let ghost entry = headers.deep_view()[i as int];
        assert(entry == (key@, values.deep_view()));
        let mut j: usize = 0;
        assert(entry_lines(entry).take(0) =~= Seq::empty());
        while j < values.len()
            invariant
                j <= values.len(),
                entry == (key@, values.deep_view()),
                lines.deep_view() == done + entry_lines(entry).take(j as int),
            decreases values.len() - j,
        {
            let ghost before = lines.deep_view();
            lines.push((key.clone(), values[j].clone()));
            assert(lines.deep_view() =~= before.push((key@, values[j as int]@)));
            assert(entry_lines(entry).take(j + 1) =~= entry_lines(entry).take(j as int).push(
                (key@, values[j as int]@),
            ));
            j += 1;
        }
        assert(entry_lines(entry).take(values.len() as int) =~= entry_lines(entry));
        assert(headers.deep_view().take(i + 1).drop_last() =~= headers.deep_view().take(i as int));
        assert(headers.deep_view().take(i + 1).last() == entry);
        i += 1;
    }
    assert(headers.deep_view().take(headers.len() as int) =~= headers.deep_view());
    lines
}

/// Has the transport judge each line in turn, and gives the fault of the
/// first line that has one.
pub fn check_lines(lines: &Vec<(String, String)>) -> (fault: Option<LineFault>)
    ensures
        fault == first_fault(lines.deep_view()),
{
    let mut i: usize = 0;
    assert(lines.deep_view().take(0) =~= Seq::empty());
    while i < lines.len()
        invariant
            i <= lines.len(),
            first_fault(lines.deep_view().take(i as int)) is None,
        decreases lines.len() - i,
    {
        let name = lines[i].0.as_str();
        let value = lines[i].1.as_str();
        let ghost line = lines.deep_view()[i as int];
        assert(line == (name@, value@));
        assert(lines.deep_view().take(i + 1).drop_last() =~= lines.deep_view().take(i as int));
        assert(lines.deep_view().take(i + 1).last() == line);
        let fault = if name.as_bytes().len() >= NAME_LIMIT || !takes_name(name) {
            Some(LineFault::Name)
        } else if !takes_value(value) {
            Some(LineFault::Value)
        } else {
            None
        };
        assert(fault == line_fault(line));
        if fault.is_some() {
            proof {
                lemma_fault_stays(lines.deep_view(), i + 1);
            }
            return fault;
        }
        i += 1;
    }
    assert(lines.deep_view().take(lines.len() as int) =~= lines.deep_view());
    None
}

/// Once a line is at fault, the lines after it change nothing: the first
/// fault of the whole list is that of its front.
proof fn lemma_fault_stays(lines: Seq<(Seq<char>, Seq<char>)>, n: int)
    requires
        0 <= n <= lines.len(),
        first_fault(lines.take(n)) is Some,
    ensures
        first_fault(lines) == first_fault(lines.take(n)),
    decreases lines.len(),
{
    if n < lines.len() {
        assert(lines.drop_last().take(n) =~= lines.take(n));
        lemma_fault_stays(lines.drop_last(), n);
    } else {
        assert(lines.take(n) =~= lines);
    }
}

/// Where no line is the first at fault, no line is at fault.
proof fn lemma_no_fault(lines: Seq<(Seq<char>, Seq<char>)>)
    requires
        first_fault(lines) is None,
    ensures
        forall|i: int| 0 <= i < lines.len() ==> line_fault(#[trigger] lines[i]) is None,
    decreases lines.len(),
{
    if lines.len() > 0 {
        lemma_no_fault(lines.drop_last());
        assert forall|i: int| 0 <= i < lines.len() implies line_fault(#[trigger] lines[i])
            is None by {
            if i < lines.len() - 1 {
                assert(lines[i] == lines.drop_last()[i]);
            }
        }
    }
}

/// Decides the reply to a handler's response, given its header lines and
/// what the transport finds at fault in them.
pub fn build_reply(
    status: u32,
    lines: Vec<(String, String)>,
    fault: Option<LineFault>,
    body: Option<Vec<u8>>,
) -> (reply: Reply)
    ensures
        reply@ == reply_for(
            status,
            lines.deep_view(),
            fault,
            match body {
                Some(bytes) => Some(bytes@),
                None => None,
            },
        ),
{
    let body = match body {
        Some(bytes) => bytes,
        None => {
            return error_response("Error writing body");
        },
    };
    if status > 65535 {
        return error_response("invalid status code");
    }
    let status = match status_code(status as u16) {
        Some(code) => code,
        None => {
            return error_response("invalid status code");
        },
    };
    match fault {
        Some(LineFault::Name) => error_response("invalid HTTP header name"),
        Some(LineFault::Value) => error_response("failed to parse header value"),
        None => Reply { response: OutgoingResponse { status, headers: lines, body }, error: None },
    }
}

/// Builds the transport's response from a handler's response.
///
/// Every value of every header becomes a line of its own, in the order in
/// which the handler gave them. Where the body could not be written, the
/// status is no HTTP status, or the transport refuses a header line, the
/// fallback is sent instead and the reason is recorded.
pub fn good_response(response: HandlerResponse) -> (reply: Reply)
    ensures
        reply@ == reply_to(response@),
        sendable(reply@.response),
        reply@.error is Some ==> reply@.response == fallback(),
{
    let lines = header_lines(&response.headers);
    let fault = check_lines(&lines);
    proof {
        if fault is None {
            lemma_no_fault(lines.deep_view());
        }
    }
    build_reply(response.status, lines, fault, response.body)
}

/// The reply to a handler's response can always be sent: either every line
/// of the response is taken and its status is an HTTP status, or the reply is
/// the fallback.
pub proof fn lemma_reply_is_sendable(response: HandlerResponseView)
    ensures
        sendable(reply_to(response).response),
        reply_to(response).error is Some ==> reply_to(response).response == fallback(),
{
    let lines = lines_of(response.headers);
    if first_fault(lines) is None {
        lemma_no_fault(lines);
    }
}

/// Splitting a list of headers in two splits its lines in the same place, so
/// every value keeps its place among the lines: after the values of the
/// headers before it, and after the earlier values of its own header.
pub proof fn lemma_lines_of_concat(
    front: Seq<(Seq<char>, Seq<Seq<char>>)>,
    back: Seq<(Seq<char>, Seq<Seq<char>>)>,
)
    ensures
        lines_of(front + back) == lines_of(front) + lines_of(back),
    decreases back.len(),
{
    if back.len() == 0 {
        assert(front + back =~= front);
        assert(lines_of(front) + lines_of(back) =~= lines_of(front));
    } else {
        assert((front + back).drop_last() =~= front + back.drop_last());
        assert((front + back).last() == back.last());
        lemma_lines_of_concat(front, back.drop_last());
        assert(lines_of(front + back) =~= lines_of(front) + lines_of(back));
    }
}

/// A header with several values gives as many lines, each under the header's
/// name, in the order of the values.
pub proof fn lemma_lines_of_one(name: Seq<char>, values: Seq<Seq<char>>)
    ensures
        lines_of(seq![(name, values)]).len() == values.len(),
        forall|i: int|
            0 <= i < values.len() ==> #[trigger] lines_of(seq![(name, values)])[i] == (
                name,
                values[i],
            ),
{
    let headers = seq![(name, values)];
    assert(headers.drop_last() =~= Seq::empty());
    assert(lines_of(headers.drop_last()) =~= Seq::empty());
    assert(lines_of(headers) =~= entry_lines((name, values)));
}

} // verus!
