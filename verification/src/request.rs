//! From the values of the command line to the one request that is sent.

use vstd::prelude::*;
use crate::json::{is_json, pretty_json};
use crate::method::{method_token, Method};
use crate::params::{parse_params, parsed_params, Params};
use crate::text::{joined, lines_view};

verus! {

/// What the command line asks for.
#[derive(Clone, Debug, PartialEq, Eq)]
pub struct RequestSpec {
    /// The URL to send the request to.
    pub url: String,
    /// The method that was asked for; `GET` where none was.
    pub method: Method,
    /// Form data, as `key=value&key=value`.
    pub form_data: Option<String>,
    /// The text of a JSON document to send.
    pub json_body: Option<String>,
}

/// What the command line asks for, over characters.
pub struct Asked {
    pub url: Seq<char>,
    pub method: Method,
    pub form_data: Option<Seq<char>>,
    pub json_body: Option<Seq<char>>,
}

impl View for RequestSpec {
    type V = Asked;

    open spec fn view(&self) -> Asked {
        Asked {
            url: self.url@,
            method: self.method,
            form_data: match self.form_data {
                Some(data) => Some(data@),
                None => None,
            },
            json_body: match self.json_body {
                Some(json) => Some(json@),
                None => None,
            },
        }
    }
}

/// The request to send.
#[derive(Debug)]
pub enum Request {
    /// A GET without a body.
    Get { url: String },
    /// A POST whose body holds the keys and values, form-encoded.
    PostForm { url: String, params: Params },
    /// A POST whose body is the JSON document `json`.
    PostJson { url: String, json: String },
}

/// The request to send, over characters.
pub enum Planned {
    Get { url: Seq<char> },
    PostForm { url: Seq<char>, params: Map<Seq<char>, Seq<char>> },
    PostJson { url: Seq<char>, json: Seq<char> },
}

impl View for Request {
    type V = Planned;

    open spec fn view(&self) -> Planned {
        match self {
            Request::Get { url } => Planned::Get { url: url@ },
            Request::PostForm { url, params } => Planned::PostForm { url: url@, params: params@ },
            Request::PostJson { url, json } => Planned::PostJson { url: url@, json: json@ },
        }
    }
}

/// A command line that asks for no request that could be sent. Such a
/// mistake is not reported as a failed request is: it ends the run at once,
/// before anything is sent.
#[derive(Clone, Copy, Debug, PartialEq, Eq, Structural)]
pub enum UsageError {
    /// The text given as JSON is no JSON document.
    InvalidJson,
    /// A POST of form data was asked for, and no form data given.
    MissingData,
}

/// The message for a JSON body that is no JSON document.
pub open spec fn invalid_json_text() -> Seq<char> {
    "Invalid JSON"@
}

/// The message for a POST of form data without form data.
pub open spec fn missing_data_text() -> Seq<char> {
    "POST requires form data"@
}

impl UsageError {
    /// The text shown for this error.
    pub fn to_string(&self) -> (r: String)
        ensures
            r@ == match *self {
                UsageError::InvalidJson => invalid_json_text(),
                UsageError::MissingData => missing_data_text(),
            },
    {
        match self {
            UsageError::InvalidJson => "Invalid JSON".to_owned(),
            UsageError::MissingData => "POST requires form data".to_owned(),
        }
    }
}

/// The characters of a request or of the refusal to make one.
pub open spec fn plan_view(plan: Result<Request, UsageError>) -> Result<Planned, UsageError> {
    match plan {
        Ok(request) => Ok(request@),
        Err(e) => Err(e),
    }
}

/// The method of the request that is sent: `POST` where a JSON body is given,
/// else the method that was asked for.
pub open spec fn effective_method(asked: Asked) -> Method {
    if asked.json_body is Some {
        Method::POST
    } else {
        asked.method
    }
}

/// The lines that say what is asked for: the URL, the method of the request
/// that is sent, and the JSON body or, without one, the form data if any.
pub open spec fn announcement(asked: Asked) -> Seq<Seq<char>> {
    let head = seq![
        "Requesting URL: "@ + asked.url,
        "Method: "@ + method_token(effective_method(asked)),
    ];
    match asked.json_body {
        Some(json) => head.push("JSON: "@ + json),
        None => match asked.form_data {
            Some(data) => head.push("Data: "@ + data),
            None => head,
        },
    }
}

/// The request for what is asked, where `json_ok` says whether the JSON body,
/// if one is given, is a JSON document. A JSON body decides alone: it is
/// posted, or refused where it is no JSON. Without one, a GET carries nothing,
/// and a POST carries the form data, which must be there.
pub open spec fn planned(asked: Asked, json_ok: bool) -> Result<Planned, UsageError> {
    match asked.json_body {
        Some(json) => if json_ok {
            Ok(Planned::PostJson { url: asked.url, json })
        } else {
            Err(UsageError::InvalidJson)
        },
        None => match asked.method {
            Method::GET => Ok(Planned::Get { url: asked.url }),
            Method::POST => match asked.form_data {
                Some(data) => Ok(Planned::PostForm { url: asked.url, params: parsed_params(data) }),
                None => Err(UsageError::MissingData),
            },
        },
    }
}

/// Whether the JSON body that is asked for is there and is a JSON document.
pub open spec fn json_body_is_json(asked: Asked) -> bool {
    match asked.json_body {
        Some(json) => is_json(json),
        None => false,
    }
}

impl RequestSpec {
    /// The method of the request that is sent.
    pub fn effective_method(&self) -> (r: Method)
        ensures
            r == effective_method(self@),
            self.json_body is Some ==> r == Method::POST,
    {
        if self.json_body.is_some() {
            Method::POST
        } else {
            self.method
        }
    }

    /// Whether a JSON body is given and is a JSON document.
    pub fn json_body_is_json(&self) -> (r: bool)
        ensures
            r == json_body_is_json(self@),
    {
        match &self.json_body {
            Some(json) => pretty_json(json.as_str()).is_some(),
            None => false,
        }
    }

    /// The lines that say what is asked for.
    pub fn announcement(&self) -> (r: Vec<String>)
        ensures
            lines_view(r@) == announcement(self@),
    {
        let mut lines: Vec<String> = Vec::new();
        lines.push(joined("Requesting URL: ", self.url.as_str()));
        lines.push(joined("Method: ", self.effective_method().name()));
        match &self.json_body {
            Some(json) => {
                lines.push(joined("JSON: ", json.as_str()));
            },
            None => match &self.form_data {
                Some(data) => {
                    lines.push(joined("Data: ", data.as_str()));
                },
                None => {},
            },
        }
        assert(lines_view(lines@) =~= announcement(self@));
        lines
    }
}

/// The request for `asked`, where `json_ok` says whether the JSON body, if one
/// is given, is a JSON document.
pub fn make_request_with(asked: &RequestSpec, json_ok: bool) -> (r: Result<Request, UsageError>)
    ensures
        plan_view(r) == planned(asked@, json_ok),
{
    match &asked.json_body {
        Some(json) => {
            if json_ok {
                Ok(Request::PostJson { url: asked.url.clone(), json: json.clone() })
            } else {
                Err(UsageError::InvalidJson)
            }
        },
        None => match asked.method {
            Method::GET => Ok(Request::Get { url: asked.url.clone() }),
            Method::POST => match &asked.form_data {
                Some(data) => Ok(
                    Request::PostForm { url: asked.url.clone(), params: parse_params(data.as_str()) },
                ),
                None => Err(UsageError::MissingData),
            },
        },
    }
}

/// The request for `asked`. A JSON body that is given is read as JSON.
pub fn make_request(asked: &RequestSpec) -> (r: Result<Request, UsageError>)
    ensures
        plan_view(r) == planned(asked@, json_body_is_json(asked@)),
{
    make_request_with(asked, asked.json_body_is_json())
}

/// With a JSON body, the request is a POST of that body, and what is shown
/// names `POST`, whatever method and form data were asked for beside it.
pub proof fn lemma_json_body_selects_post(asked: Asked, method: Method, form_data: Option<Seq<char>>)
    requires
        asked.json_body is Some,
    ensures
        effective_method(asked) == Method::POST,
        planned(asked, true) == Ok::<Planned, UsageError>(
            Planned::PostJson { url: asked.url, json: asked.json_body->0 },
        ),
        planned(Asked { method, form_data, ..asked }, true) == planned(asked, true),
        announcement(Asked { method, form_data, ..asked }) == announcement(asked),
{
}

} // verus!
