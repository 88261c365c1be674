//! What goes to the service and what comes back, as plain values.
//!
//! The library sends nothing itself. It says which request to send, and is
//! told how the exchange ended.

use crate::headers::header_entries;
use crate::json::{Json, JsonView};
use reqwest::header::{HeaderMap, HeaderValue};
use vstd::prelude::*;

verus! {

/// The two kinds of request that the client sends.
#[derive(Clone, Copy, Debug, PartialEq, Eq, Structural)]
pub enum Method {
    Get,
    Post,
}

/// A request to the service: where it goes, the headers that go with it, and
/// the JSON body where it has one.
#[derive(Debug, PartialEq)]
pub struct Request<'a> {
    pub method: Method,
    pub url: String,
    pub headers: &'a HeaderMap<HeaderValue>,
    pub body: Option<Json>,
}

/// The mathematical value of a [`Request`].
pub struct RequestView {
    pub method: Method,
    pub url: Seq<char>,
    pub headers: Map<Seq<char>, Seq<u8>>,
    pub body: Option<JsonView>,
}

impl<'a> View for Request<'a> {
    type V = RequestView;

    open spec fn view(&self) -> RequestView {
        RequestView {
            method: self.method,
            url: self.url@,
            headers: header_entries(*self.headers),
            body: match self.body {
                Some(body) => Some(body@),
                None => None,
            },
        }
    }
}

/// How one exchange with the service ended.
#[derive(Debug, PartialEq)]
pub enum Reply {
    /// A reply came. Holds the bytes of its body.
    Body(Vec<u8>),
    /// No reply came, or its body could not be read. Holds what the
    /// transport said.
    Failed(String),
}

/// The mathematical value of a [`Reply`].
pub enum ReplyView {
    Body(Seq<u8>),
    Failed(Seq<char>),
}

impl View for Reply {
    type V = ReplyView;

    open spec fn view(&self) -> ReplyView {
        match self {
            Reply::Body(bytes) => ReplyView::Body(bytes@),
            Reply::Failed(detail) => ReplyView::Failed(detail@),
        }
    }
}

} // verus!
