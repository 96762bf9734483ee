//! Outgoing HTTP requests to the Discord REST API, as plain values that the
//! caller hands to an HTTP client.

use vstd::prelude::*;
use vstd::string::*;
use vstd::utf8::encode_utf8;

pub use crate::text::join3;
use crate::text::{decimal, push_decimal};

verus! {

/// The HTTP methods the bot uses.
#[derive(PartialEq, Eq, Structural, Clone, Copy, Debug)]
pub enum HttpMethod {
    Get,
    Post,
    Put,
}

/// A request: method, absolute URL, headers in order, and body.
#[derive(Debug)]
pub struct HttpRequest {
    pub method: HttpMethod,
    pub url: String,
    pub headers: Vec<(String, String)>,
    pub body: String,
}

/// An `HttpRequest` with its strings taken as character sequences.
pub struct RequestView {
    pub method: HttpMethod,
    pub url: Seq<char>,
    pub headers: Seq<(Seq<char>, Seq<char>)>,
    pub body: Seq<char>,
}

impl View for HttpRequest {
    type V = RequestView;

    open spec fn view(&self) -> RequestView {
        RequestView {
            method: self.method,
            url: self.url@,
            headers: self.headers.deep_view(),
            body: self.body@,
        }
    }
}

impl DeepView for HttpRequest {
    type V = RequestView;

    open spec fn deep_view(&self) -> RequestView {
        self.view()
    }
}

/// Base URL of the Discord REST API, version 10.
pub open spec fn api_base() -> Seq<char> {
    "https://discord.com/api/v10/"@
}

/// The `Authorization` value for a bot token.
pub open spec fn bot_authorization(token: Seq<char>) -> Seq<char> {
    "Bot "@ + token
}

/// The `Content-Length` value of a body: its UTF-8 byte count in decimal.
pub open spec fn content_length(body: Seq<char>) -> Seq<char> {
    decimal(encode_utf8(body).len())
}

/// One header.
pub open spec fn header(name: Seq<char>, value: Seq<char>) -> (Seq<char>, Seq<char>) {
    (name, value)
}

/// The header pair `(name, value)`.
pub fn make_header(name: &str, value: String) -> (r: (String, String))
    ensures
        r.deep_view() == header(name@, value@),
{
    (String::from_str(name), value)
}

/// The decimal UTF-8 byte count of `body`.
pub fn length_of(body: &str) -> (r: String)
    ensures
        r@ == content_length(body@),
{
    let mut s = String::new();
    let n = body.as_bytes().len();
    push_decimal(&mut s, n as u64);
    assert(s@ =~= content_length(body@));
    s
}

/// Whether Discord accepted a posted message (`200 OK` or `201 Created`).
pub fn reply_accepted(status: u16) -> (r: bool)
    ensures
        r == (status == 200 || status == 201),
{
    status == 200 || status == 201
}

} // verus!
