//! The request builder: it gathers method, URL, headers and body, and turns
//! them into a request when the caller sends.

use vstd::prelude::*;
use crate::client::ApiClient;
use crate::exchange::{begin, Action, Exchange};
use crate::headers::{put, Headers, Listing};
use crate::request::{Body, BodyModel, Method, Request, RequestModel};
use crate::wire::{
    header_name_accepted,
    header_value_accepted,
    parse_url,
    parsed_model,
    url_parsed,
    valid_header_name,
    valid_header_value,
};

verus! {

/// Why a builder could not be turned into a request.
#[derive(Clone, Copy, Debug, PartialEq, Eq, Structural)]
pub enum BuildError {
    /// The URL cannot be parsed, or names no host.
    Url,
    /// A header name is malformed.
    HeaderName,
    /// A header value is malformed.
    HeaderValue,
}

/// Both the name and the value of a header entry are well formed.
pub open spec fn entry_accepted(entry: (Seq<char>, Seq<char>)) -> bool {
    valid_header_name(entry.0) && valid_header_value(entry.1)
}

/// Entry `at` is the first of `list` that is not well formed.
pub open spec fn first_rejected(list: Listing, at: int) -> bool {
    &&& 0 <= at < list.len()
    &&& !entry_accepted(list[at])
    &&& forall|j: int| 0 <= j < at ==> entry_accepted(#[trigger] list[j])
}

/// The request that `draft` becomes when its URL parses as `parsed` (the
/// serialised form, and whether it names a host), or the first thing that is
/// wrong with it: the URL is looked at before the headers, the headers in the
/// order they are listed, a name before its value.
pub open spec fn build_from(draft: RequestModel, parsed: Option<(Seq<char>, bool)>) -> Result<
    RequestModel,
    BuildError,
> {
    match parsed {
        None => Err(BuildError::Url),
        Some((text, has_host)) => {
            if !has_host {
                Err(BuildError::Url)
            } else if exists|at: int| first_rejected(draft.headers, at) {
                let at = choose|at: int| first_rejected(draft.headers, at);
                if !valid_header_name(draft.headers[at].0) {
                    Err(BuildError::HeaderName)
                } else {
                    Err(BuildError::HeaderValue)
                }
            } else {
                Ok(RequestModel { url: text, ..draft })
            }
        },
    }
}

/// The request that `draft` becomes, with the URL in its serialised form, or
/// the first thing that is wrong with it.
pub open spec fn build_outcome(draft: RequestModel) -> Result<RequestModel, BuildError> {
    build_from(draft, url_parsed(draft.url))
}

/// A request in the making, tied to the client that will send it.
#[derive(Debug)]
pub struct RequestBuilder<'a> {
    client: &'a ApiClient,
    method: Method,
    url: String,
    headers: Headers,
    body: Option<Body>,
}

impl<'a> View for RequestBuilder<'a> {
    type V = RequestModel;

    closed spec fn view(&self) -> RequestModel {
        RequestModel {
            method: self.method,
            url: self.url@,
            headers: self.headers@,
            body: crate::request::body_model(self.body),
        }
    }
}

impl<'a> RequestBuilder<'a> {
    /// The client that the builder is tied to.
    pub closed spec fn client(&self) -> ApiClient {
        *self.client
    }

    /// A builder for `method` and `url`, without headers or body.
    pub fn new(client: &'a ApiClient, method: Method, url: &str) -> (builder: RequestBuilder<'a>)
        ensures
            builder.client() == *client,
            builder@ == crate::client::fresh(method, url@),
    {
        RequestBuilder { client, method, url: url.to_owned(), headers: Headers::new(), body: None }
    }

    /// Makes `form` the body, as form fields. An earlier body is lost.
    pub fn form(self, form: Vec<(String, String)>) -> (builder: RequestBuilder<'a>)
        ensures
            builder.client() == self.client(),
            builder@ == (RequestModel {
                body: Some(BodyModel::Form(form.deep_view())),
                ..self@
            }),
    {
        RequestBuilder {
            client: self.client,
            method: self.method,
            url: self.url,
            headers: self.headers,
            body: Some(Body::Form(form)),
        }
    }

    /// Makes the serialised document `json` the body. An earlier body is lost.
    pub fn json(self, json: String) -> (builder: RequestBuilder<'a>)
        ensures
            builder.client() == self.client(),
            builder@ == (RequestModel { body: Some(BodyModel::Json(json@)), ..self@ }),
    {
        RequestBuilder {
            client: self.client,
            method: self.method,
            url: self.url,
            headers: self.headers,
            body: Some(Body::Json(json)),
        }
    }

    /// Writes `value` under the header `key`. An earlier value under that
    /// name, in whatever case, is lost.
    pub fn header(self, key: &str, value: &str) -> (builder: RequestBuilder<'a>)
        ensures
            builder.client() == self.client(),
            builder@ == (RequestModel { headers: put(self@.headers, key@, value@), ..self@ }),
    {
        let mut headers = self.headers;
        headers.set(key.to_owned(), value.to_owned());
        RequestBuilder {
            client: self.client,
            method: self.method,
            url: self.url,
            headers,
            body: self.body,
        }
    }

    /// Makes `form` the body, as multipart text parts in the order given, and
    /// accepts any kind of answer. An earlier body is lost.
    pub fn multipart(self, form: Vec<(String, String)>) -> (builder: RequestBuilder<'a>)
        ensures
            builder.client() == self.client(),
            builder@ == (RequestModel {
                headers: put(self@.headers, "Accept"@, "*/*"@),
                body: Some(BodyModel::Multipart(form.deep_view())),
                ..self@
            }),
    {
        let mut headers = self.headers;
        headers.set("Accept".to_owned(), "*/*".to_owned());
        RequestBuilder {
            client: self.client,
            method: self.method,
            url: self.url,
            headers,
            body: Some(Body::Multipart(form)),
        }
    }

    fn check_headers(headers: &Headers) -> (rejected: Option<BuildError>)
        ensures
            rejected is None <==> !exists|at: int| first_rejected(headers@, at),
            rejected matches Some(error) ==> error == (if !valid_header_name(
                headers@[choose|at: int| first_rejected(headers@, at)].0,
            ) {
                BuildError::HeaderName
            } else {
                BuildError::HeaderValue
            }),
    {
        let mut at: usize = 0;
        while at < headers.len()
            invariant
                at <= headers@.len(),
                forall|j: int| 0 <= j < at ==> entry_accepted(#[trigger] headers@[j]),
            decreases headers@.len() - at,
        {
            let name_ok = header_name_accepted(headers.name_at(at).as_str());
            let value_ok = header_value_accepted(headers.value_at(at).as_str());
            if !name_ok || !value_ok {
                proof {
                    assert(first_rejected(headers@, at as int));
                    let chosen = choose|k: int| first_rejected(headers@, k);
                    if chosen < at {
                        assert(entry_accepted(headers@[chosen]));
                    }
                    if at < chosen {
                        assert(entry_accepted(headers@[at as int]));
                    }
                }
                if !name_ok {
                    return Some(BuildError::HeaderName);
                }
                return Some(BuildError::HeaderValue);
            }
            at += 1;
        }
        None
    }

    /// Turns what was gathered into a request, where `parsed` is what the URL
    /// parser made of the URL: `None` if it rejected it, else the serialised
    /// form and whether the URL names a host.
    pub fn build_with(self, parsed: Option<(String, bool)>) -> (built: Result<Request, BuildError>)
        ensures
            match build_from(self@, parsed_model(parsed)) {
                Ok(request) => built matches Ok(r) && r@ == request,
                Err(error) => built matches Err(e) && e == error,
            },
    {
        match parsed {
            None => Err(BuildError::Url),
            Some((text, has_host)) => {
                if !has_host {
                    return Err(BuildError::Url);
                }
                match Self::check_headers(&self.headers) {
                    Some(error) => Err(error),
                    None => Ok(
                        Request {
                            method: self.method,
                            url: text,
                            headers: self.headers,
                            body: self.body,
                        },
                    ),
                }
            },
        }
    }

    /// Turns what was gathered into a request, or says what is wrong with it.
    pub fn build(self) -> (built: Result<Request, BuildError>)
        ensures
            match build_outcome(self@) {
                Ok(request) => built matches Ok(r) && r@ == request,
                Err(error) => built matches Err(e) && e == error,
            },
    {
        let parsed = parse_url(self.url.as_str());
        self.build_with(parsed)
    }

    /// Builds the request and starts sending it through the client that the
    /// builder is tied to. A builder that cannot be built starts nothing.
    pub fn send(self) -> (started: Result<(Exchange, Action), BuildError>)
        ensures
            match build_outcome(self@) {
                Ok(request) => started matches Ok(first) && (first.0@, first.1@) == begin(request),
                Err(error) => started matches Err(e) && e == error,
            },
    {
        let client = self.client;
        match self.build() {
            Ok(request) => Ok(client.send(request)),
            Err(error) => Err(error),
        }
    }
}

} // verus!
