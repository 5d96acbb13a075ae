//! What is made of the URL before the request is sent: the `url` crate reads
//! it, and what the reading gives decides whether and how the user is warned.

use vstd::prelude::*;
use url::{ParseError, Url};
use crate::text::{same_text, text_view};

verus! {

/// The ways in which reading a URL can fail, as far as they are told apart.
#[derive(Clone, Copy, Debug, PartialEq, Eq, Structural)]
pub enum UrlFaultKind {
    /// The text has no scheme, and there is nothing it could be relative to.
    RelativeUrlWithoutBase,
    /// The text is relative to a base that cannot be one.
    RelativeUrlWithCannotBeABaseBase,
    /// A host was to be set on a URL that cannot have one.
    SetHostOnCannotBeABaseUrl,
    /// The host looks like an IPv4 address and is none.
    InvalidIpv4Address,
    /// The host is written as an IPv6 address and is none.
    InvalidIpv6Address,
    /// The port is no number in the range of ports.
    InvalidPort,
    /// Any other failure.
    Other,
}

/// A failed reading of a URL: its kind and the parser's own words for it.
#[derive(Clone, Debug, PartialEq, Eq)]
pub struct UrlFault {
    pub kind: UrlFaultKind,
    pub detail: String,
}

/// What reading a URL gives, over characters: the scheme of the URL, or the
/// kind of the failure with the parser's words for it.
pub type Reading = Result<Seq<char>, (UrlFaultKind, Seq<char>)>;

/// The characters of a reading.
pub open spec fn reading_view(reading: Result<String, UrlFault>) -> Reading {
    match reading {
        Ok(scheme) => Ok(scheme@),
        Err(fault) => Err((fault.kind, fault.detail@)),
    }
}

/// What the `url` crate makes of the text `raw`: where `Url::parse` accepts
/// it, the scheme of the URL as `Url::scheme` gives it; where it fails, which
/// `ParseError` it fails with and the text that the error is displayed as.
pub uninterp spec fn url_reading(raw: Seq<char>) -> Result<Seq<char>, (UrlFaultKind, Seq<char>)>;

/// Reads `raw` with `url::Url::parse`. Of an accepted URL the scheme is kept,
/// as `Url::scheme` returns it. A `url::ParseError` is turned into the kind of
/// the same name, or into `Other` where it has none here, and keeps the text
/// of its `Display`. The contract only gives the outcome its name: the same
/// text always has the same outcome.
#[verifier::external_body]
pub(crate) fn read_url(raw: &str) -> (r: Result<String, UrlFault>)
    ensures
        reading_view(r) == url_reading(raw@),
{
    let (detail, kind) = match Url::parse(raw) {
        Ok(parsed) => return Ok(parsed.scheme().to_string()),
        Err(e) => (e.to_string(), match e {
            ParseError::RelativeUrlWithoutBase => UrlFaultKind::RelativeUrlWithoutBase,
            ParseError::RelativeUrlWithCannotBeABaseBase => {
                UrlFaultKind::RelativeUrlWithCannotBeABaseBase
            },
            ParseError::SetHostOnCannotBeABaseUrl => UrlFaultKind::SetHostOnCannotBeABaseUrl,
            ParseError::InvalidIpv4Address => UrlFaultKind::InvalidIpv4Address,
            ParseError::InvalidIpv6Address => UrlFaultKind::InvalidIpv6Address,
            ParseError::InvalidPort => UrlFaultKind::InvalidPort,
            _ => UrlFaultKind::Other,
        }),
    };
    Err(UrlFault { kind, detail })
}

/// Whether `scheme` is one of the two schemes that the client speaks.
pub open spec fn is_web_scheme(scheme: Seq<char>) -> bool {
    scheme == "http"@ || scheme == "https"@
}

/// The complaint about a URL that has no scheme the client speaks.
pub open spec fn base_protocol_complaint() -> Seq<char> {
    "The URL does not have a valid base protocol."@
}

/// The complaint about a host that is no IPv4 address.
pub open spec fn ipv4_complaint() -> Seq<char> {
    "The URL contains an invalid IPv4 address."@
}

/// The complaint about a host that is no IPv6 address.
pub open spec fn ipv6_complaint() -> Seq<char> {
    "The URL contains an invalid IPv6 address."@
}

/// The complaint about a port that is none.
pub open spec fn port_complaint() -> Seq<char> {
    "The URL contains an invalid port number."@
}

/// The complaint that a reading calls for, if it calls for one. A URL that
/// was read draws one unless its scheme is `http` or `https`. A failure draws
/// the complaint of its kind, and one of no particular kind the parser's own
/// words.
pub open spec fn complaint(reading: Reading) -> Option<Seq<char>> {
    match reading {
        Ok(scheme) => if is_web_scheme(scheme) {
            None
        } else {
            Some(base_protocol_complaint())
        },
        Err((kind, detail)) => Some(
            match kind {
                UrlFaultKind::RelativeUrlWithoutBase
                | UrlFaultKind::RelativeUrlWithCannotBeABaseBase
                | UrlFaultKind::SetHostOnCannotBeABaseUrl => base_protocol_complaint(),
                UrlFaultKind::InvalidIpv4Address => ipv4_complaint(),
                UrlFaultKind::InvalidIpv6Address => ipv6_complaint(),
                UrlFaultKind::InvalidPort => port_complaint(),
                UrlFaultKind::Other => detail,
            },
        ),
    }
}

/// The complaint that the reading `reading` calls for, if any.
pub fn complaint_of(reading: &Result<String, UrlFault>) -> (r: Option<String>)
    ensures
        text_view(r) == complaint(reading_view(*reading)),
{
    match reading {
        Ok(scheme) => {
            if same_text(scheme.as_str(), "http") || same_text(scheme.as_str(), "https") {
                None
            } else {
                Some("The URL does not have a valid base protocol.".to_owned())
            }
        },
        Err(fault) => Some(
            match fault.kind {
                UrlFaultKind::RelativeUrlWithoutBase
                | UrlFaultKind::RelativeUrlWithCannotBeABaseBase
                | UrlFaultKind::SetHostOnCannotBeABaseUrl => {
                    "The URL does not have a valid base protocol.".to_owned()
                },
                UrlFaultKind::InvalidIpv4Address => {
                    "The URL contains an invalid IPv4 address.".to_owned()
                },
                UrlFaultKind::InvalidIpv6Address => {
                    "The URL contains an invalid IPv6 address.".to_owned()
                },
                UrlFaultKind::InvalidPort => "The URL contains an invalid port number.".to_owned(),
                UrlFaultKind::Other => fault.detail.clone(),
            },
        ),
    }
}

/// Reads the URL `raw` and returns the complaint it draws, if any.
pub fn validate_url(raw: &str) -> (r: Option<String>)
    ensures
        text_view(r) == complaint(url_reading(raw@)),
{
    let reading = read_url(raw);
    complaint_of(&reading)
}

/// A URL that is read with the scheme `http` or `https` draws no complaint.
pub proof fn lemma_web_url_draws_no_complaint(raw: Seq<char>)
    requires
        url_reading(raw) is Ok,
        is_web_scheme(url_reading(raw)->Ok_0),
    ensures
        complaint(url_reading(raw)) is None,
{
}

/// A URL in which no scheme is found, and one that is read with a scheme
/// other than `http` and `https`, draw the complaint about the base protocol.
pub proof fn lemma_unknown_scheme_draws_complaint(raw: Seq<char>)
    requires
        match url_reading(raw) {
            Ok(scheme) => !is_web_scheme(scheme),
            Err((kind, _)) => kind == UrlFaultKind::RelativeUrlWithoutBase,
        },
    ensures
        complaint(url_reading(raw)) == Some(base_protocol_complaint()),
{
}

} // verus!
