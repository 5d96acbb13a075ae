//! One run of the client, as two steps around the sending of the request:
//! what is shown and decided before it, and what is shown and returned after.
//!
//! A complaint about the URL is shown and does not keep the request from
//! being sent; it makes the run end with a status other than 0. A command
//! line that asks for no request that could be sent ends the run before
//! anything is sent.

use vstd::prelude::*;
use crate::request::{
    announcement, json_body_is_json, make_request_with, plan_view, planned, Asked, Planned,
    Request, RequestSpec, UsageError,
};
use crate::response::{error_line, error_line_of, exit_status, shown, ResponseOutcome};
use crate::text::lines_view;
use crate::validator::{
    complaint, complaint_of, read_url, reading_view, url_reading, Reading, UrlFault,
};

verus! {

/// What is shown and decided before the request is sent.
#[derive(Debug)]
pub struct Opening {
    /// The lines to show, in order.
    pub lines: Vec<String>,
    /// Whether the URL drew no complaint.
    pub url_accepted: bool,
    /// The request to send, or why there is none.
    pub request: Result<Request, UsageError>,
}

/// What is shown and decided before the request is sent, over characters.
pub struct Opened {
    pub lines: Seq<Seq<char>>,
    pub url_accepted: bool,
    pub request: Result<Planned, UsageError>,
}

impl View for Opening {
    type V = Opened;

    open spec fn view(&self) -> Opened {
        Opened {
            lines: lines_view(self.lines@),
            url_accepted: self.url_accepted,
            request: plan_view(self.request),
        }
    }
}

/// What is shown after the request was sent, and the exit status of the run.
#[derive(Clone, Debug, PartialEq, Eq)]
pub struct Closing {
    /// The lines to show, in order.
    pub lines: Vec<String>,
    /// The exit status: 0 for a success, 1 otherwise.
    pub exit_code: u8,
}

/// What is shown after the request was sent, over characters, and the exit
/// status of the run.
pub struct Closed {
    pub lines: Seq<Seq<char>>,
    pub exit_code: u8,
}

impl View for Closing {
    type V = Closed;

    open spec fn view(&self) -> Closed {
        Closed { lines: lines_view(self.lines@), exit_code: self.exit_code }
    }
}

/// The opening of a run for what is asked, where `reading` is what reading
/// the URL gave and `json_ok` says whether the JSON body, if one is given, is
/// a JSON document. The lines say what is asked for, followed by the
/// complaint about the URL if it draws one. The request does not depend on
/// the complaint.
pub open spec fn opened(asked: Asked, reading: Reading, json_ok: bool) -> Opened {
    Opened {
        lines: match complaint(reading) {
            Some(message) => announcement(asked).push(error_line(message)),
            None => announcement(asked),
        },
        url_accepted: complaint(reading) is None,
        request: planned(asked, json_ok),
    }
}

/// The opening of a run for `asked`, where `reading` is what reading its URL
/// gave and `json_ok` says whether its JSON body, if it has one, is a JSON
/// document.
pub fn prepare_with(asked: &RequestSpec, reading: &Result<String, UrlFault>, json_ok: bool) -> (r:
    Opening)
    ensures
        r@ == opened(asked@, reading_view(*reading), json_ok),
{
    let mut lines = asked.announcement();
    let found = complaint_of(reading);
    let url_accepted = found.is_none();
    match found {
        Some(message) => {
            lines.push(error_line_of(message.as_str()));
        },
        None => {},
    }
    let request = make_request_with(asked, json_ok);
    let r = Opening { lines, url_accepted, request };
    assert(r@.lines =~= opened(asked@, reading_view(*reading), json_ok).lines);
    r
}

/// The opening of a run for `asked`: its URL is read, and its JSON body, if it
/// has one, is read as JSON.
pub fn prepare(asked: &RequestSpec) -> (r: Opening)
    ensures
        r@ == opened(asked@, url_reading(asked.url@), json_body_is_json(asked@)),
{
    let reading = read_url(asked.url.as_str());
    prepare_with(asked, &reading, asked.json_body_is_json())
}

/// The closing of a run in which the request ended as `outcome`, where
/// `url_accepted` says that the URL drew no complaint.
pub fn conclude(url_accepted: bool, outcome: &ResponseOutcome) -> (r: Closing)
    ensures
        r@ == (Closed { lines: shown(outcome@), exit_code: exit_status(url_accepted, outcome@) }),
{
    Closing { lines: outcome.lines(), exit_code: outcome.exit_code(url_accepted) }
}

/// What is asked for is always announced first, whatever is made of the URL
/// and of the JSON body; and what is made of the URL has no part in the
/// request: a URL that draws a complaint is sent to all the same.
pub proof fn lemma_opening(asked: Asked, reading: Reading, other: Reading, json_ok: bool)
    ensures
        announcement(asked).is_prefix_of(opened(asked, reading, json_ok).lines),
        opened(asked, reading, json_ok).request == opened(asked, other, json_ok).request,
        opened(asked, reading, json_ok).url_accepted <==> opened(asked, reading, json_ok).lines
            == announcement(asked),
{
    let lines = opened(asked, reading, json_ok).lines;
    assert(announcement(asked) =~= lines.subrange(0, announcement(asked).len() as int));
    if complaint(reading) is Some {
        assert(lines.len() == announcement(asked).len() + 1);
    }
}

} // verus!
