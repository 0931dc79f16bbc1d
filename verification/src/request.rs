//! Requests as the pipeline sees them, and the responses it hands back.

use vstd::prelude::*;
use crate::headers::{Headers, Listing};

verus! {

/// The four request methods that the client offers.
#[derive(Clone, Copy, Debug, PartialEq, Eq, Structural)]
pub enum Method {
    Get,
    Post,
    Put,
    Delete,
}

/// The body of a request. Form fields and multipart parts are text, in the
/// order given; a JSON body is the serialised document.
#[derive(Debug, PartialEq, Eq)]
pub enum Body {
    Form(Vec<(String, String)>),
    Json(String),
    Multipart(Vec<(String, String)>),
}

/// What a `Body` holds.
pub enum BodyModel {
    Form(Listing),
    Json(Seq<char>),
    Multipart(Listing),
}

impl View for Body {
    type V = BodyModel;

    open spec fn view(&self) -> BodyModel {
        match self {
            Body::Form(fields) => BodyModel::Form(fields.deep_view()),
            Body::Json(document) => BodyModel::Json(document@),
            Body::Multipart(parts) => BodyModel::Multipart(parts.deep_view()),
        }
    }
}

/// The body of a request that may have none.
pub open spec fn body_model(body: Option<Body>) -> Option<BodyModel> {
    match body {
        Some(b) => Some(b@),
        None => None,
    }
}

/// The text of a string that may be absent.
pub open spec fn text_model(text: Option<String>) -> Option<Seq<char>> {
    match text {
        Some(t) => Some(t@),
        None => None,
    }
}

/// An outgoing request. It can be changed until it is dispatched.
#[derive(Debug)]
pub struct Request {
    pub method: Method,
    pub url: String,
    pub headers: Headers,
    pub body: Option<Body>,
}

/// What a `Request` holds.
pub struct RequestModel {
    pub method: Method,
    pub url: Seq<char>,
    pub headers: Listing,
    pub body: Option<BodyModel>,
}

impl View for Request {
    type V = RequestModel;

    open spec fn view(&self) -> RequestModel {
        RequestModel {
            method: self.method,
            url: self.url@,
            headers: self.headers@,
            body: body_model(self.body),
        }
    }
}

/// A response as the caller receives it: either the transport's own, whose
/// body nobody has read yet, or one whose body was read in full and is
/// carried along.
#[derive(Debug, PartialEq, Eq)]
pub enum Response {
    Streaming { status: u16 },
    Buffered { status: u16, body: String },
}

/// What a `Response` holds.
pub enum ResponseModel {
    Streaming { status: u16 },
    Buffered { status: u16, body: Seq<char> },
}

impl View for Response {
    type V = ResponseModel;

    open spec fn view(&self) -> ResponseModel {
        match self {
            Response::Streaming { status } => ResponseModel::Streaming { status: *status },
            Response::Buffered { status, body } => ResponseModel::Buffered {
                status: *status,
                body: body@,
            },
        }
    }
}

impl Response {
    /// The status code that the transport reported.
    pub fn status(&self) -> (code: u16)
        ensures
            code == match self@ {
                ResponseModel::Streaming { status } => status,
                ResponseModel::Buffered { status, .. } => status,
            },
    {
        match self {
            Response::Streaming { status } => *status,
            Response::Buffered { status, .. } => *status,
        }
    }
}

} // verus!
