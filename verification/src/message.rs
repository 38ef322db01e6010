//! What goes over the wire, as far as the router's own decisions see it.

use vstd::prelude::*;

verus! {

/// The status of a request that was carried out.
pub const OK: u16 = 200;

/// The status of a request that lacks what the endpoint needs.
pub const BAD_REQUEST: u16 = 400;

/// The status of a request that no route takes.
pub const NOT_FOUND: u16 = 404;

/// A request method that some route of the server takes.
#[derive(Clone, Copy, Debug, PartialEq, Eq, Structural)]
pub enum Method {
    Get,
    Post,
}

/// The first line of a request that is made up for a worker; its body is empty.
#[derive(Debug)]
pub struct RequestHead {
    pub method: Method,
    pub uri: String,
}

/// The contents of a [`RequestHead`].
pub struct RequestHeadView {
    pub method: Method,
    pub uri: Seq<char>,
}

impl View for RequestHead {
    type V = RequestHeadView;

    open spec fn view(&self) -> RequestHeadView {
        RequestHeadView { method: self.method, uri: self.uri@ }
    }
}

/// What a response carries.
#[derive(Debug)]
pub enum Body {
    /// Nothing, and no content type.
    Empty,
    /// Plain text in UTF-8.
    Text(String),
    /// A JSON document.
    Json(String),
}

/// The contents of a [`Body`].
pub enum BodyView {
    Empty,
    Text(Seq<char>),
    Json(Seq<char>),
}

impl View for Body {
    type V = BodyView;

    open spec fn view(&self) -> BodyView {
        match self {
            Body::Empty => BodyView::Empty,
            Body::Text(text) => BodyView::Text(text@),
            Body::Json(text) => BodyView::Json(text@),
        }
    }
}

/// A response that the router gives on its own account.
#[derive(Debug)]
pub struct Response {
    pub status: u16,
    pub body: Body,
}

/// The contents of a [`Response`].
pub struct ResponseView {
    pub status: u16,
    pub body: BodyView,
}

impl View for Response {
    type V = ResponseView;

    open spec fn view(&self) -> ResponseView {
        ResponseView { status: self.status, body: self.body@ }
    }
}

} // verus!
