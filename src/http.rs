//! The HTTP values that the handlers produce.

use vstd::prelude::*;

verus! {

/// 200: the body is the requested file.
pub const OK: u16 = 200;

/// 303: a redirect that the client follows with a GET.
pub const SEE_OTHER: u16 = 303;

/// 400: the request target is not a valid origin path.
pub const BAD_REQUEST: u16 = 400;

/// 404: nothing is served at the requested path.
pub const NOT_FOUND: u16 = 404;

/// 500: the file exists but could not be read.
pub const INTERNAL_SERVER_ERROR: u16 = 500;

/// The request methods that the router tells apart.
#[derive(Clone, Copy, Debug, PartialEq, Eq, Structural)]
pub enum Method {
    Get,
    Head,
    Post,
    Put,
    Delete,
    Patch,
    Options,
    Trace,
    Connect,
}

/// A redirect: its status and the target location.
pub struct Redirect {
    pub status: u16,
    pub location: String,
}

pub struct RedirectView {
    pub status: u16,
    pub location: Seq<char>,
}

impl View for Redirect {
    type V = RedirectView;

    open spec fn view(&self) -> RedirectView {
        RedirectView { status: self.status, location: self.location@ }
    }
}

/// A complete response: status, content type (if one is known) and body.
pub struct Response {
    pub status: u16,
    pub content_type: Option<String>,
    pub body: Vec<u8>,
}

pub struct ResponseView {
    pub status: u16,
    pub content_type: Option<Seq<char>>,
    pub body: Seq<u8>,
}

pub open spec fn text_view(t: Option<String>) -> Option<Seq<char>> {
    match t {
        Some(s) => Some(s@),
        None => None,
    }
}

impl View for Response {
    type V = ResponseView;

    open spec fn view(&self) -> ResponseView {
        ResponseView {
            status: self.status,
            content_type: text_view(self.content_type),
            body: self.body@,
        }
    }
}

/// The view of a list of strings.
pub open spec fn texts_view(v: Vec<String>) -> Seq<Seq<char>> {
    v@.map_values(|s: String| s@)
}

/// A response with the given status and an empty body.
pub fn status_only(status: u16) -> (r: Response)
    ensures
        r@ == (ResponseView { status, content_type: None, body: Seq::empty() }),
{
    let body: Vec<u8> = Vec::new();
    Response { status, content_type: None, body }
}

} // verus!
