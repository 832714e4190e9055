//! Requests and responses as plain values: what to send, and what came back.

use vstd::prelude::*;
use crate::moodle::outside::{pairs_view, text_view};

verus! {

/// How a request is made.
#[derive(Clone, Copy, Debug, PartialEq, Eq, Structural)]
pub enum Method {
    Get,
    Post,
}

/// A request for the transport to send, redirects not followed. The cookie
/// is the whole value of the `Cookie` header; the form is empty for a `Get`.
pub struct Request {
    pub method: Method,
    pub url: String,
    pub cookie: String,
    pub form: Vec<(String, String)>,
}

/// The mathematical value of a [`Request`].
pub ghost struct RequestView {
    pub method: Method,
    pub url: Seq<char>,
    pub cookie: Seq<char>,
    pub form: Seq<(Seq<char>, Seq<char>)>,
}

impl View for Request {
    type V = RequestView;

    open spec fn view(&self) -> RequestView {
        RequestView {
            method: self.method,
            url: self.url@,
            cookie: self.cookie@,
            form: pairs_view(self.form@),
        }
    }
}

/// What the transport got back: the status code, the `Location` header where
/// there is one that is text, and the body.
pub struct Response {
    pub status: u16,
    pub location: Option<String>,
    pub body: String,
}

/// The mathematical value of a [`Response`].
pub ghost struct ResponseView {
    pub status: u16,
    pub location: Option<Seq<char>>,
    pub body: Seq<char>,
}

impl View for Response {
    type V = ResponseView;

    open spec fn view(&self) -> ResponseView {
        ResponseView {
            status: self.status,
            location: text_view(self.location),
            body: self.body@,
        }
    }
}

/// Whether a status code announces a redirect.
pub open spec fn is_redirect(status: u16) -> bool {
    300 <= status < 400
}

/// Whether a status code reports a client or server error.
pub open spec fn is_failure(status: u16) -> bool {
    400 <= status < 600
}

/// The value of the `Cookie` header that carries a session.
pub open spec fn session_cookie(session: Seq<char>) -> Seq<char> {
    "MoodleSession="@ + session
}

/// Builds the value of the `Cookie` header that carries a session.
pub fn make_cookie(session: &str) -> (cookie: String)
    ensures
        cookie@ == session_cookie(session@),
{
    let mut cookie = String::new();
    cookie.append("MoodleSession=");
    cookie.append(session);
    assert(cookie@ =~= session_cookie(session@));
    cookie
}

} // verus!
