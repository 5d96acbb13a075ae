//! What came back for the request, the lines that are shown for it, and the
//! exit status that it calls for.

use vstd::prelude::*;
use crate::json::{json_pretty, pretty_json};
use crate::text::{joined, decimal, lines_view, push_decimal, text_view, trim, trimmed};

verus! {

/// Why no response arrived.
#[derive(Clone, Copy, Debug, PartialEq, Eq, Structural)]
pub enum TransportKind {
    /// The server did not answer in time.
    Timeout,
    /// No connection to the server could be made.
    Connect,
    /// Anything else that went wrong below HTTP.
    Other,
}

impl TransportKind {
    /// The kind of a failure of which it is known whether it is a timeout
    /// and whether it is a failure to connect. A timeout counts as one
    /// whatever else it is.
    pub fn from_flags(timeout: bool, connect: bool) -> (r: TransportKind)
        ensures
            r == if timeout {
                TransportKind::Timeout
            } else if connect {
                TransportKind::Connect
            } else {
                TransportKind::Other
            },
    {
        if timeout {
            TransportKind::Timeout
        } else if connect {
            TransportKind::Connect
        } else {
            TransportKind::Other
        }
    }
}

/// How the one request of a run ended.
#[derive(Clone, Debug, PartialEq, Eq)]
pub enum ResponseOutcome {
    /// A response with a status from 200 to 299, and its body.
    Success(u16, String),
    /// A response with any other status.
    HttpError(u16),
    /// No response.
    TransportError(TransportKind),
}

/// How the one request of a run ended, over characters.
pub enum Outcome {
    Success(u16, Seq<char>),
    HttpError(u16),
    TransportError(TransportKind),
}

impl View for ResponseOutcome {
    type V = Outcome;

    open spec fn view(&self) -> Outcome {
        match self {
            ResponseOutcome::Success(status, body) => Outcome::Success(*status, body@),
            ResponseOutcome::HttpError(status) => Outcome::HttpError(*status),
            ResponseOutcome::TransportError(kind) => Outcome::TransportError(*kind),
        }
    }
}

impl Outcome {
    /// Whether the outcome agrees with its status: a success has a status
    /// from 200 to 299, a failed response any other.
    pub open spec fn consistent(self) -> bool {
        match self {
            Outcome::Success(status, _) => status_is_success(status),
            Outcome::HttpError(status) => !status_is_success(status),
            Outcome::TransportError(_) => true,
        }
    }
}

/// The outcome for a response with the status `status` and the body `body`.
/// The body counts only where the status is a success.
pub open spec fn outcome_of(status: u16, body: Seq<char>) -> Outcome {
    if status_is_success(status) {
        Outcome::Success(status, body)
    } else {
        Outcome::HttpError(status)
    }
}

/// Whether a response with the status `status` counts as a success.
pub open spec fn status_is_success(status: u16) -> bool {
    200 <= status < 300
}

/// Whether a response with the status `status` counts as a success: its body
/// is read and shown only then.
pub fn is_success(status: u16) -> (r: bool)
    ensures
        r == status_is_success(status),
{
    200 <= status && status < 300
}

/// The line that reports the failure `message`.
pub open spec fn error_line(message: Seq<char>) -> Seq<char> {
    "Error: "@ + message
}

/// The message for a response with the status `status` that is no success.
pub open spec fn http_failure(status: u16) -> Seq<char> {
    "Request failed with status code: "@ + decimal(status as nat) + "."@
}

/// The message for a request that got no response.
pub open spec fn transport_failure(kind: TransportKind) -> Seq<char> {
    match kind {
        TransportKind::Timeout
        | TransportKind::Connect =>
        "Unable to connect to the server. Perhaps the network is offline or the server hostname cannot be resolved."@,
        TransportKind::Other => "The request could not be completed."@,
    }
}

/// The line above a body that is shown as JSON.
pub open spec fn json_heading() -> Seq<char> {
    "Response body (JSON with sorted keys):"@
}

/// The line above a body that is shown as it came.
pub open spec fn plain_heading() -> Seq<char> {
    "Response body:"@
}

/// The lines shown for `outcome`, where `pretty` is the indented form of the
/// body if the body is JSON. A success shows a heading and the body: as
/// indented JSON if it is JSON, else as it came, without the white space
/// around it. A failure shows one line and nothing of any body.
pub open spec fn report_lines(outcome: Outcome, pretty: Option<Seq<char>>) -> Seq<Seq<char>> {
    match outcome {
        Outcome::Success(_, body) => match pretty {
            Some(text) => seq![json_heading(), text],
            None => seq![plain_heading(), trimmed(body)],
        },
        Outcome::HttpError(status) => seq![error_line(http_failure(status))],
        Outcome::TransportError(kind) => seq![error_line(transport_failure(kind))],
    }
}

/// The lines shown for `outcome`. The body of a success is shown as indented
/// JSON exactly where it is a JSON document.
pub open spec fn shown(outcome: Outcome) -> Seq<Seq<char>> {
    match outcome {
        Outcome::Success(_, body) => report_lines(outcome, json_pretty(body)),
        _ => report_lines(outcome, None),
    }
}

/// The exit status for a run: 0 where the URL drew no complaint and the
/// response was a success, 1 otherwise.
pub open spec fn exit_status(url_accepted: bool, outcome: Outcome) -> u8 {
    if url_accepted && outcome is Success {
        0
    } else {
        1
    }
}

/// The line that reports the failure `message`.
pub fn error_line_of(message: &str) -> (r: String)
    ensures
        r@ == error_line(message@),
{
    joined("Error: ", message)
}

/// The message for a response with the status `status` that is no success.
pub fn http_failure_message(status: u16) -> (r: String)
    ensures
        r@ == http_failure(status),
{
    let mut out = "Request failed with status code: ".to_owned();
    push_decimal(&mut out, status);
    joined(out.as_str(), ".")
}

/// The message for a request that got no response.
pub fn transport_failure_message(kind: TransportKind) -> (r: String)
    ensures
        r@ == transport_failure(kind),
{
    match kind {
        TransportKind::Timeout | TransportKind::Connect => {
            "Unable to connect to the server. Perhaps the network is offline or the server hostname cannot be resolved.".to_owned()
        },
        TransportKind::Other => "The request could not be completed.".to_owned(),
    }
}

impl ResponseOutcome {
    /// The outcome for a response with the status `status` and the body
    /// `body`. The body is kept only where the status is a success.
    pub fn received(status: u16, body: String) -> (r: ResponseOutcome)
        ensures
            r@ == outcome_of(status, body@),
            r@.consistent(),
    {
        if is_success(status) {
            ResponseOutcome::Success(status, body)
        } else {
            ResponseOutcome::HttpError(status)
        }
    }

    /// The lines to show, where `pretty` is the indented form of the body if
    /// the body is JSON.
    pub fn lines_with(&self, pretty: Option<String>) -> (r: Vec<String>)
        ensures
            lines_view(r@) == report_lines(self@, text_view(pretty)),
    {
        let mut lines: Vec<String> = Vec::new();
        match self {
            ResponseOutcome::Success(_, body) => match pretty {
                Some(text) => {
                    lines.push("Response body (JSON with sorted keys):".to_owned());
                    lines.push(text);
                },
                None => {
                    lines.push("Response body:".to_owned());
                    lines.push(trim(body.as_str()));
                },
            },
            ResponseOutcome::HttpError(status) => {
                let message = http_failure_message(*status);
                lines.push(error_line_of(message.as_str()));
            },
            ResponseOutcome::TransportError(kind) => {
                let message = transport_failure_message(*kind);
                lines.push(error_line_of(message.as_str()));
            },
        }
        assert(lines_view(lines@) =~= report_lines(self@, text_view(pretty)));
        lines
    }

    /// The lines to show. The body of a success is shown as indented JSON
    /// where it is JSON.
    pub fn lines(&self) -> (r: Vec<String>)
        ensures
            lines_view(r@) == shown(self@),
    {
        match self {
            ResponseOutcome::Success(_, body) => {
                let pretty = pretty_json(body.as_str());
                self.lines_with(pretty)
            },
            _ => self.lines_with(None),
        }
    }

    /// The exit status for the run, where `url_accepted` says that the URL
    /// drew no complaint.
    pub fn exit_code(&self, url_accepted: bool) -> (r: u8)
        ensures
            r == exit_status(url_accepted, self@),
    {
        match self {
            ResponseOutcome::Success(_, _) => if url_accepted {
                0
            } else {
                1
            },
            _ => 1,
        }
    }
}

/// A response whose status is no success is reported in one line that names
/// the status; nothing of its body is shown, whatever the body is.
pub proof fn lemma_failed_response_shows_no_body(
    status: u16,
    body: Seq<char>,
    pretty: Option<Seq<char>>,
)
    requires
        !status_is_success(status),
    ensures
        report_lines(outcome_of(status, body), pretty) == seq![
            "Error: "@ + ("Request failed with status code: "@ + decimal(status as nat) + "."@),
        ],
        exit_status(true, outcome_of(status, body)) != 0,
{
}

/// A successful response whose body is no JSON is shown under the plain
/// heading as it came, without the white space around it.
pub proof fn lemma_plain_body_is_shown_trimmed(status: u16, body: Seq<char>)
    requires
        status_is_success(status),
    ensures
        report_lines(outcome_of(status, body), None) == seq![plain_heading(), trimmed(body)],
        exit_status(true, outcome_of(status, body)) == 0,
{
}

/// A request that got no response is reported in one line, whatever kept the
/// response from arriving; a timeout and a failure to connect are reported
/// in the same words.
pub proof fn lemma_transport_failure_is_reported(kind: TransportKind, pretty: Option<Seq<char>>)
    ensures
        report_lines(Outcome::TransportError(kind), pretty) == seq![
            "Error: "@ + transport_failure(kind),
        ],
        transport_failure(TransportKind::Timeout) == transport_failure(TransportKind::Connect),
        exit_status(true, Outcome::TransportError(kind)) != 0,
{
}

} // verus!
