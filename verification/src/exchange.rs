//! One send, as a conversation between the client and whoever drives it.
//!
//! The client decides; the driver acts. Each `Action` tells the driver what to
//! do next, and the driver reports what came of it with an `Event`. The
//! client never touches the network or the store itself.

use vstd::prelude::*;
use crate::hook::{verdict_on, Store, Verdict};
use crate::interceptor::{credential_key, Interceptor};
use crate::request::{text_model, Request, RequestModel, Response, ResponseModel};

verus! {

/// Why a send did not end in a response.
#[derive(Clone, Copy, Debug, PartialEq, Eq, Structural)]
pub enum SendError {
    /// The transport could not complete the call.
    Transport,
    /// The response arrived, but its body could not be read as text.
    BodyRead,
    /// The driver reported something that the pending action did not ask for.
    OutOfTurn,
}

/// Where a send stands.
#[derive(Debug)]
pub enum Exchange {
    /// Waiting to learn whether the URL calls for authentication.
    Classifying { request: Request },
    /// Waiting for the credential that interceptor `next` asked for.
    Intercepting { request: Request, next: usize },
    /// The request is with the transport.
    InFlight { url: String },
    /// Waiting for the body of the response.
    Buffering { url: String, status: u16 },
    /// Waiting for the token parser.
    Extracting { status: u16, body: String },
    /// Waiting for the store to take a write or a delete.
    Committing { status: u16, body: String },
    /// Nothing is pending.
    Done,
}

/// What the driver reports.
#[derive(Debug)]
pub enum Event {
    /// Whether the URL calls for authentication.
    Classified(bool),
    /// What the store holds under the key that was read.
    Credential(Option<String>),
    /// The transport delivered a response with this status code.
    Responded(u16),
    /// The transport failed.
    TransportFailed,
    /// The body of the response, read in full.
    BodyRead(String),
    /// The body could not be read.
    BodyFailed,
    /// The credential that the token parser found, if it found one.
    Extracted(Option<String>),
    /// The store was asked to write or delete; `true` if it did.
    Written(bool),
}

/// What the driver is to do next.
#[derive(Debug)]
pub enum Action {
    /// Ask whether `url` calls for authentication.
    Classify { url: String },
    /// Read `key` from the store.
    StoreGet { key: String },
    /// Hand the request to the transport.
    Dispatch(Request),
    /// Read the body of the response in full, as text.
    ReadBody,
    /// Delete `key` from the store.
    StoreDelete { key: String },
    /// Ask the token parser for the credential in `body`, received from `url`.
    Extract { url: String, body: String },
    /// Write `value` under `key` in the store.
    StoreSet { key: String, value: String },
    /// Return this to the caller.
    Finish(Result<Response, SendError>),
}

/// What an `Exchange` holds.
pub enum ExchangeModel {
    Classifying { request: RequestModel },
    Intercepting { request: RequestModel, next: nat },
    InFlight { url: Seq<char> },
    Buffering { url: Seq<char>, status: u16 },
    Extracting { status: u16, body: Seq<char> },
    Committing { status: u16, body: Seq<char> },
    Done,
}

/// What an `Event` holds.
pub enum EventModel {
    Classified(bool),
    Credential(Option<Seq<char>>),
    Responded(u16),
    TransportFailed,
    BodyRead(Seq<char>),
    BodyFailed,
    Extracted(Option<Seq<char>>),
    Written(bool),
}

/// What an `Action` holds.
pub enum ActionModel {
    Classify { url: Seq<char> },
    StoreGet { key: Seq<char> },
    Dispatch(RequestModel),
    ReadBody,
    StoreDelete { key: Seq<char> },
    Extract { url: Seq<char>, body: Seq<char> },
    StoreSet { key: Seq<char>, value: Seq<char> },
    Finish(Result<ResponseModel, SendError>),
}

impl View for Exchange {
    type V = ExchangeModel;

    open spec fn view(&self) -> ExchangeModel {
        match self {
            Exchange::Classifying { request } => ExchangeModel::Classifying { request: request@ },
            Exchange::Intercepting { request, next } => ExchangeModel::Intercepting {
                request: request@,
                next: *next as nat,
            },
            Exchange::InFlight { url } => ExchangeModel::InFlight { url: url@ },
            Exchange::Buffering { url, status } => ExchangeModel::Buffering {
                url: url@,
                status: *status,
            },
            Exchange::Extracting { status, body } => ExchangeModel::Extracting {
                status: *status,
                body: body@,
            },
            Exchange::Committing { status, body } => ExchangeModel::Committing {
                status: *status,
                body: body@,
            },
            Exchange::Done => ExchangeModel::Done,
        }
    }
}

impl View for Event {
    type V = EventModel;

    open spec fn view(&self) -> EventModel {
        match self {
            Event::Classified(required) => EventModel::Classified(*required),
            Event::Credential(credential) => EventModel::Credential(text_model(*credential)),
            Event::Responded(status) => EventModel::Responded(*status),
            Event::TransportFailed => EventModel::TransportFailed,
            Event::BodyRead(body) => EventModel::BodyRead(body@),
            Event::BodyFailed => EventModel::BodyFailed,
            Event::Extracted(token) => EventModel::Extracted(text_model(*token)),
            Event::Written(done) => EventModel::Written(*done),
        }
    }
}

impl View for Action {
    type V = ActionModel;

    open spec fn view(&self) -> ActionModel {
        match self {
            Action::Classify { url } => ActionModel::Classify { url: url@ },
            Action::StoreGet { key } => ActionModel::StoreGet { key: key@ },
            Action::Dispatch(request) => ActionModel::Dispatch(request@),
            Action::ReadBody => ActionModel::ReadBody,
            Action::StoreDelete { key } => ActionModel::StoreDelete { key: key@ },
            Action::Extract { url, body } => ActionModel::Extract { url: url@, body: body@ },
            Action::StoreSet { key, value } => ActionModel::StoreSet { key: key@, value: value@ },
            Action::Finish(Ok(response)) => ActionModel::Finish(Ok(response@)),
            Action::Finish(Err(error)) => ActionModel::Finish(Err(*error)),
        }
    }
}

/// What a client holds: its interceptors in the order they were registered,
/// and whether it was bound to a store at construction.
pub struct ClientModel {
    pub interceptors: Seq<Interceptor>,
    pub bound: bool,
}

impl ClientModel {
    /// Only a bound client has interceptors: they read the store.
    pub open spec fn well_formed(self) -> bool {
        !self.bound ==> self.interceptors.len() == 0
    }
}

/// The send ends here with `result`.
pub open spec fn finish(result: Result<ResponseModel, SendError>) -> (ExchangeModel, ActionModel) {
    (ExchangeModel::Done, ActionModel::Finish(result))
}

/// The request goes to the transport as it is.
pub open spec fn dispatch(request: RequestModel) -> (ExchangeModel, ActionModel) {
    (ExchangeModel::InFlight { url: request.url }, ActionModel::Dispatch(request))
}

/// Interceptor `next` gets its turn if there is one; after the last, the
/// request is dispatched.
pub open spec fn intercept_from(client: ClientModel, request: RequestModel, next: nat) -> (
    ExchangeModel,
    ActionModel,
) {
    if next < client.interceptors.len() {
        (
            ExchangeModel::Intercepting { request, next },
            ActionModel::StoreGet { key: credential_key() },
        )
    } else {
        dispatch(request)
    }
}

/// The response whose body was read in full goes back to the caller.
pub open spec fn hand_back(status: u16, body: Seq<char>) -> (ExchangeModel, ActionModel) {
    finish(Ok(ResponseModel::Buffered { status, body }))
}

/// What follows the hook's verdict on the body `body`, which came from `url`
/// with `status`: the store is asked to delete the credential, the token
/// parser is asked for a new one, or the response goes back as it is.
pub open spec fn settle(url: Seq<char>, status: u16, body: Seq<char>, verdict: Verdict) -> (
    ExchangeModel,
    ActionModel,
) {
    match verdict {
        Verdict::Clear => (
            ExchangeModel::Committing { status, body },
            ActionModel::StoreDelete { key: credential_key() },
        ),
        Verdict::Extract => (
            ExchangeModel::Extracting { status, body },
            ActionModel::Extract { url, body },
        ),
        Verdict::Keep => hand_back(status, body),
    }
}

/// The start of a send: the URL is to be classified.
pub open spec fn begin(request: RequestModel) -> (ExchangeModel, ActionModel) {
    (ExchangeModel::Classifying { request }, ActionModel::Classify { url: request.url })
}

/// One step of a send: where it stands after `event`, and what the driver is
/// to do next.
pub open spec fn step(client: ClientModel, state: ExchangeModel, event: EventModel) -> (
    ExchangeModel,
    ActionModel,
) {
    match (state, event) {
        (ExchangeModel::Classifying { request }, EventModel::Classified(required)) => {
            if required {
                intercept_from(client, request, 0)
            } else {
                dispatch(request)
            }
        },
        (ExchangeModel::Intercepting { request, next }, EventModel::Credential(credential)) => {
            if next < client.interceptors.len() {
                intercept_from(
                    client,
                    client.interceptors[next as int].applied(request, credential),
                    next + 1,
                )
            } else {
                dispatch(request)
            }
        },
        (ExchangeModel::InFlight { url }, EventModel::Responded(status)) => {
            if client.bound {
                (ExchangeModel::Buffering { url, status }, ActionModel::ReadBody)
            } else {
                finish(Ok(ResponseModel::Streaming { status }))
            }
        },
        (ExchangeModel::InFlight { .. }, EventModel::TransportFailed) => finish(
            Err(SendError::Transport),
        ),
        (ExchangeModel::Buffering { url, status }, EventModel::BodyRead(body)) => settle(
            url,
            status,
            body,
            verdict_on(url, body),
        ),
        (ExchangeModel::Buffering { .. }, EventModel::BodyFailed) => finish(
            Err(SendError::BodyRead),
        ),
        (ExchangeModel::Extracting { status, body }, EventModel::Extracted(Some(token))) => (
            ExchangeModel::Committing { status, body },
            ActionModel::StoreSet { key: credential_key(), value: token },
        ),
        (ExchangeModel::Extracting { status, body }, EventModel::Extracted(None)) => hand_back(
            status,
            body,
        ),
        (ExchangeModel::Committing { status, body }, EventModel::Written(_)) => hand_back(
            status,
            body,
        ),
        _ => finish(Err(SendError::OutOfTurn)),
    }
}

/// The store after the driver has carried out `action` on it.
pub open spec fn store_after(action: ActionModel, store: Store) -> Store {
    match action {
        ActionModel::StoreDelete { key } => store.remove(key),
        ActionModel::StoreSet { key, value } => store.insert(key, value),
        _ => store,
    }
}

/// `action` reads or changes the store.
pub open spec fn touches_store(action: ActionModel) -> bool {
    action is StoreGet || action is StoreSet || action is StoreDelete
}

/// `action` changes the store.
pub open spec fn changes_store(action: ActionModel) -> bool {
    action is StoreSet || action is StoreDelete
}

/// Where a send that stood at `start` stands after `events`.
pub open spec fn reached(client: ClientModel, start: ExchangeModel, events: Seq<EventModel>) -> ExchangeModel
    decreases events.len(),
{
    if events.len() == 0 {
        start
    } else {
        step(client, reached(client, start, events.drop_last()), events.last()).0
    }
}

/// What the driver is told in answer to the last of `events`, in a send that
/// stood at `start` before the first of them.
pub open spec fn answer(client: ClientModel, start: ExchangeModel, events: Seq<EventModel>) -> ActionModel
    recommends
        events.len() > 0,
{
    step(client, reached(client, start, events.drop_last()), events.last()).1
}

} // verus!
