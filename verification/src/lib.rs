//! A small command-line HTTP client, as a library: the request it sends is
//! chosen from the command line's values, the URL is examined before anything
//! is sent, and the answer is turned into the lines that are shown.
//!
//! Everything here computes on plain values. Sending the request, reading the
//! command line and printing are left to the program that uses the library.

pub mod json;
pub mod method;
pub mod params;
pub mod request;
pub mod response;
pub mod session;
pub mod text;
pub mod validator;
