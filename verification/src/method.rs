//! The HTTP methods that the client can send.

use vstd::prelude::*;
use crate::text::same_text;

verus! {

/// The method of a request.
#[derive(Clone, Copy, Debug, PartialEq, Eq, Structural)]
pub enum Method {
    GET,
    POST,
}

impl Default for Method {
    /// The method of a request for which none is asked: `GET`.
    fn default() -> (r: Method)
        ensures
            r == Method::GET,
    {
        Method::GET
    }
}

/// Why a method token was refused.
#[derive(Clone, Copy, Debug, PartialEq, Eq, Structural)]
pub enum MethodError {
    InvalidMethod,
}

/// The characters of the token that stands for `method`.
pub open spec fn method_token(method: Method) -> Seq<char> {
    match method {
        Method::GET => seq!['G', 'E', 'T'],
        Method::POST => seq!['P', 'O', 'S', 'T'],
    }
}

/// The method that `token` stands for, if any. The match is exact: case counts.
pub open spec fn method_of_token(token: Seq<char>) -> Option<Method> {
    if token == method_token(Method::GET) {
        Some(Method::GET)
    } else if token == method_token(Method::POST) {
        Some(Method::POST)
    } else {
        None
    }
}

/// The text shown for an invalid method token.
pub open spec fn invalid_method_text() -> Seq<char> {
    "Invalid HTTP method"@
}

impl Method {
    /// Reads a method token. `GET` and `POST` are the only tokens accepted.
    pub fn from_str(s: &str) -> (r: Result<Method, MethodError>)
        ensures
            r == match method_of_token(s@) {
                Some(m) => Ok::<Method, MethodError>(m),
                None => Err(MethodError::InvalidMethod),
            },
    {
        proof {
            reveal_strlit("GET");
            reveal_strlit("POST");
            assert("GET"@ =~= method_token(Method::GET));
            assert("POST"@ =~= method_token(Method::POST));
        }
        if same_text(s, "GET") {
            Ok(Method::GET)
        } else if same_text(s, "POST") {
            Ok(Method::POST)
        } else {
            Err(MethodError::InvalidMethod)
        }
    }

    /// The token of this method, as a string of its own.
    pub fn to_string(&self) -> (r: String)
        ensures
            r@ == method_token(*self),
    {
        self.name().to_owned()
    }

    /// The token of this method, as it is shown and as `from_str` reads it.
    pub fn name(&self) -> (r: &'static str)
        ensures
            r@ == method_token(*self),
    {
        proof {
            reveal_strlit("GET");
            reveal_strlit("POST");
            assert("GET"@ =~= method_token(Method::GET));
            assert("POST"@ =~= method_token(Method::POST));
        }
        match self {
            Method::GET => "GET",
            Method::POST => "POST",
        }
    }
}

impl MethodError {
    /// The text shown for this error.
    pub fn to_string(&self) -> (r: String)
        ensures
            r@ == invalid_method_text(),
    {
        "Invalid HTTP method".to_owned()
    }
}

/// `GET` and `POST` are the only tokens that stand for a method; each stands
/// for the method that is shown as that token.
pub proof fn lemma_method_tokens(token: Seq<char>)
    ensures
        method_of_token(token) is Some <==> token == "GET"@ || token == "POST"@,
        token == "GET"@ ==> method_of_token(token) == Some(Method::GET),
        token == "POST"@ ==> method_of_token(token) == Some(Method::POST),
        forall|m: Method| method_of_token(token) == Some(m) <==> token == method_token(m),
{
    reveal_strlit("GET");
    reveal_strlit("POST");
    assert("GET"@ =~= method_token(Method::GET));
    assert("POST"@ =~= method_token(Method::POST));
    assert(method_token(Method::GET).len() != method_token(Method::POST).len());
}

} // verus!
