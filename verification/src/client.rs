//! The client core: the interceptor chain and the send pipeline.

use vstd::prelude::*;
use crate::builder::RequestBuilder;
use crate::exchange::{begin, step, Action, ClientModel, Event, Exchange, SendError};
use crate::hook::{token_lifecycle_hook, Verdict};
use crate::interceptor::{Interceptor, CREDENTIAL_KEY};
use crate::request::{Method, Request, RequestModel, Response};

verus! {

/// The origin that is used when no other is known.
pub const FALLBACK_BASE_URL: &'static str = "https://pool.52ai.org/api";

/// The origin that is used when no other is known, as text.
pub open spec fn fallback_base_url() -> Seq<char> {
    FALLBACK_BASE_URL@
}

/// A request for `method` and `url` with nothing else in it.
pub open spec fn fresh(method: Method, url: Seq<char>) -> RequestModel {
    RequestModel { method, url, headers: Seq::<(Seq<char>, Seq<char>)>::empty(), body: None }
}

/// The time, in seconds, that the transport gives a request from connecting
/// to the end of the transfer.
pub const TIMEOUT_SECONDS: u64 = 10;

/// The client core. It holds the interceptors in the order in which they
/// have their turn, and knows whether it was bound to a store when it was made.
#[derive(Debug)]
pub struct ApiClient {
    interceptors: Vec<Interceptor>,
    bound: bool,
}

impl View for ApiClient {
    type V = ClientModel;

    closed spec fn view(&self) -> ClientModel {
        ClientModel { interceptors: self.interceptors@, bound: self.bound }
    }
}

impl ApiClient {
    #[verifier::type_invariant]
    spec fn only_bound_clients_intercept(&self) -> bool {
        self@.well_formed()
    }

    /// A client that is bound to a store, with the auth interceptor as its
    /// only interceptor, or one that is not, with none.
    pub fn new(bound: bool) -> (client: ApiClient)
        ensures
            client@.bound == bound,
            client@.interceptors == if bound {
                seq![Interceptor::Auth]
            } else {
                Seq::<Interceptor>::empty()
            },
            client@.well_formed(),
    {
        let mut interceptors: Vec<Interceptor> = Vec::new();
        if bound {
            interceptors.push(Interceptor::Auth);
        }
        assert(interceptors@ =~= if bound {
            seq![Interceptor::Auth]
        } else {
            Seq::<Interceptor>::empty()
        });
        ApiClient { interceptors, bound }
    }

    /// Whether the client was bound to a store when it was made.
    pub fn is_bound(&self) -> (bound: bool)
        ensures
            bound == self@.bound,
            self@.well_formed(),
    {
        proof {
            use_type_invariant(self);
        }
        self.bound
    }

    /// The origin to send to. `resolved` is what the resolver names as the
    /// current origin, or `None` where the store cannot be reached. A client
    /// that is not bound always answers with the fallback.
    pub fn get_base_url(&self, resolved: Option<String>) -> (origin: String)
        ensures
            origin@ == match resolved {
                Some(current) => if self@.bound {
                    current@
                } else {
                    fallback_base_url()
                },
                None => fallback_base_url(),
            },
    {
        if self.bound {
            if let Some(current) = resolved {
                return current;
            }
        }
        FALLBACK_BASE_URL.to_owned()
    }

    /// A builder for a GET request to `url`, tied to this client.
    pub fn get(&self, url: &str) -> (builder: RequestBuilder<'_>)
        ensures
            builder.client() == *self,
            builder@ == fresh(Method::Get, url@),
    {
        RequestBuilder::new(self, Method::Get, url)
    }

    /// A builder for a POST request to `url`, tied to this client.
    pub fn post(&self, url: &str) -> (builder: RequestBuilder<'_>)
        ensures
            builder.client() == *self,
            builder@ == fresh(Method::Post, url@),
    {
        RequestBuilder::new(self, Method::Post, url)
    }

    /// A builder for a PUT request to `url`, tied to this client.
    pub fn put(&self, url: &str) -> (builder: RequestBuilder<'_>)
        ensures
            builder.client() == *self,
            builder@ == fresh(Method::Put, url@),
    {
        RequestBuilder::new(self, Method::Put, url)
    }

    /// A builder for a DELETE request to `url`, tied to this client.
    pub fn delete(&self, url: &str) -> (builder: RequestBuilder<'_>)
        ensures
            builder.client() == *self,
            builder@ == fresh(Method::Delete, url@),
    {
        RequestBuilder::new(self, Method::Delete, url)
    }

    fn dispatch(request: Request) -> (next: (Exchange, Action))
        ensures
            (next.0@, next.1@) == crate::exchange::dispatch(request@),
    {
        let url = request.url.clone();
        (Exchange::InFlight { url }, Action::Dispatch(request))
    }

    fn intercept_from(&self, request: Request, next: usize) -> (step: (Exchange, Action))
        ensures
            (step.0@, step.1@) == crate::exchange::intercept_from(self@, request@, next as nat),
    {
        if next < self.interceptors.len() {
            let key = self.interceptors[next].store_key();
            (Exchange::Intercepting { request, next }, Action::StoreGet { key })
        } else {
            Self::dispatch(request)
        }
    }

    fn hand_back(status: u16, body: String) -> (next: (Exchange, Action))
        ensures
            (next.0@, next.1@) == crate::exchange::hand_back(status, body@),
    {
        (Exchange::Done, Action::Finish(Ok(Response::Buffered { status, body })))
    }

    /// Acts on the hook's verdict on the body `body`, which came from `url`
    /// with `status`.
    pub fn settle(url: String, status: u16, body: String, verdict: Verdict) -> (next: (
        Exchange,
        Action,
    ))
        ensures
            (next.0@, next.1@) == crate::exchange::settle(url@, status, body@, verdict),
    {
        match verdict {
            Verdict::Clear => {
                let key = CREDENTIAL_KEY.to_owned();
                (Exchange::Committing { status, body }, Action::StoreDelete { key })
            },
            Verdict::Extract => {
                let copy = body.clone();
                (Exchange::Extracting { status, body }, Action::Extract { url, body: copy })
            },
            Verdict::Keep => Self::hand_back(status, body),
        }
    }

    fn fail(error: SendError) -> (next: (Exchange, Action))
        ensures
            (next.0@, next.1@) == crate::exchange::finish(Err(error)),
    {
        (Exchange::Done, Action::Finish(Err(error)))
    }

    /// Starts sending `request`. No network activity has taken place when
    /// this returns: the driver is first asked whether the URL calls for
    /// authentication.
    pub fn send(&self, request: Request) -> (first: (Exchange, Action))
        ensures
            (first.0@, first.1@) == begin(request@),
    {
        let url = request.url.clone();
        (Exchange::Classifying { request }, Action::Classify { url })
    }

    /// Takes the send one step further: `event` is what came of the action
    /// that was pending in `state`.
    pub fn resume(&self, state: Exchange, event: Event) -> (next: (Exchange, Action))
        ensures
            (next.0@, next.1@) == step(self@, state@, event@),
    {
        match state {
            Exchange::Classifying { request } => match event {
                Event::Classified(required) => {
                    if required {
                        self.intercept_from(request, 0)
                    } else {
                        Self::dispatch(request)
                    }
                },
                _ => Self::fail(SendError::OutOfTurn),
            },
            Exchange::Intercepting { request, next } => match event {
                Event::Credential(credential) => {
                    if next < self.interceptors.len() {
                        let mut request = request;
                        let token: Option<&str> = match &credential {
                            Some(text) => Some(text.as_str()),
                            None => None,
                        };
                        let _ = self.interceptors[next].intercept(&mut request, token);
                        self.intercept_from(request, next + 1)
                    } else {
                        Self::dispatch(request)
                    }
                },
                _ => Self::fail(SendError::OutOfTurn),
            },
            Exchange::InFlight { url } => match event {
                Event::Responded(status) => {
                    if self.bound {
                        (Exchange::Buffering { url, status }, Action::ReadBody)
                    } else {
                        (Exchange::Done, Action::Finish(Ok(Response::Streaming { status })))
                    }
                },
                Event::TransportFailed => Self::fail(SendError::Transport),
                _ => Self::fail(SendError::OutOfTurn),
            },
            Exchange::Buffering { url, status } => match event {
                Event::BodyRead(body) => {
                    let verdict = token_lifecycle_hook(url.as_str(), body.as_str());
                    Self::settle(url, status, body, verdict)
                },
                Event::BodyFailed => Self::fail(SendError::BodyRead),
                _ => Self::fail(SendError::OutOfTurn),
            },
            Exchange::Extracting { status, body } => match event {
                Event::Extracted(Some(token)) => {
                    let key = CREDENTIAL_KEY.to_owned();
                    (Exchange::Committing { status, body }, Action::StoreSet { key, value: token })
                },
                Event::Extracted(None) => Self::hand_back(status, body),
                _ => Self::fail(SendError::OutOfTurn),
            },
            Exchange::Committing { status, body } => match event {
                Event::Written(_) => Self::hand_back(status, body),
                _ => Self::fail(SendError::OutOfTurn),
            },
            Exchange::Done => Self::fail(SendError::OutOfTurn),
        }
    }
}

} // verus!
