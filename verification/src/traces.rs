//! What holds of every send, whatever the driver reports.

use vstd::prelude::*;
use crate::exchange::{
    answer,
    changes_store,
    reached,
    step,
    store_after,
    touches_store,
    ActionModel,
    ClientModel,
    EventModel,
    ExchangeModel,
};
use crate::hook::{hook_effect, verdict_on, Store, Verdict};
use crate::interceptor::credential_key;
use crate::request::{RequestModel, ResponseModel};
use crate::exchange::SendError;

verus! {

/// The request is not with the transport yet, or the transport has not
/// answered.
pub open spec fn before_response(state: ExchangeModel) -> bool {
    state is Classifying || state is Intercepting || state is InFlight
}

/// The interceptors have had their turns.
pub open spec fn past_interception(state: ExchangeModel) -> bool {
    !(state is Classifying) && !(state is Intercepting)
}

/// What the driver reports while the interceptors have their turns: that the
/// URL calls for authentication, then what the store holds at each reading.
pub open spec fn readings(credentials: Seq<Option<Seq<char>>>) -> Seq<EventModel> {
    Seq::new(
        credentials.len() + 1,
        |i: int|
            if i == 0 {
                EventModel::Classified(true)
            } else {
                EventModel::Credential(credentials[i - 1])
            },
    )
}

/// `request` after the first `turns` interceptors of `client` have had their
/// turn, each with the credential that was read for it.
pub open spec fn intercepted(
    client: ClientModel,
    request: RequestModel,
    credentials: Seq<Option<Seq<char>>>,
    turns: nat,
) -> RequestModel
    decreases turns,
{
    if turns == 0 {
        request
    } else {
        client.interceptors[turns - 1].applied(
            intercepted(client, request, credentials, (turns - 1) as nat),
            credentials[turns - 1],
        )
    }
}

/// The store after the driver has carried out, in order, what it was told in
/// answer to each of `events`.
pub open spec fn store_through(
    client: ClientModel,
    start: ExchangeModel,
    events: Seq<EventModel>,
    store: Store,
) -> Store
    decreases events.len(),
{
    if events.len() == 0 {
        store
    } else {
        store_after(
            answer(client, start, events),
            store_through(client, start, events.drop_last(), store),
        )
    }
}

/// What the driver reports while the hook runs on `body`: the body, then what
/// the token parser found and whether the store took the change, each where
/// it is asked.
pub open spec fn hook_reports(
    url: Seq<char>,
    body: Seq<char>,
    extracted: Option<Seq<char>>,
    written: bool,
) -> Seq<EventModel> {
    match verdict_on(url, body) {
        Verdict::Clear => seq![EventModel::BodyRead(body), EventModel::Written(written)],
        Verdict::Extract => match extracted {
            Some(_) => seq![
                EventModel::BodyRead(body),
                EventModel::Extracted(extracted),
                EventModel::Written(written),
            ],
            None => seq![EventModel::BodyRead(body), EventModel::Extracted(extracted)],
        },
        Verdict::Keep => seq![EventModel::BodyRead(body)],
    }
}

/// The first `k` events take a send where the first `k - 1` took it, and one
/// step further.
pub proof fn lemma_prefix_step(
    client: ClientModel,
    start: ExchangeModel,
    events: Seq<EventModel>,
    k: int,
)
    requires
        1 <= k <= events.len(),
    ensures
        reached(client, start, events.take(k)) == step(
            client,
            reached(client, start, events.take(k - 1)),
            events[k - 1],
        ).0,
        answer(client, start, events.take(k)) == step(
            client,
            reached(client, start, events.take(k - 1)),
            events[k - 1],
        ).1,
{
    assert(events.take(k).drop_last() =~= events.take(k - 1));
    assert(events.take(k).last() == events[k - 1]);
}

/// Where the URL calls for authentication, each interceptor has its turn
/// exactly once, in the order of registration, and the request goes to the
/// transport after the last of them, as they left it: after `turn` readings
/// the driver is asked to read for interceptor `turn`, or, when all have had
/// their turn, to dispatch.
pub proof fn lemma_each_interceptor_once(
    client: ClientModel,
    request: RequestModel,
    credentials: Seq<Option<Seq<char>>>,
    turn: nat,
)
    requires
        credentials.len() == client.interceptors.len(),
        turn <= client.interceptors.len(),
    ensures
        ({
            let start = ExchangeModel::Classifying { request };
            let events = readings(credentials).take(turn as int + 1);
            let now = intercepted(client, request, credentials, turn);
            if turn < client.interceptors.len() {
                &&& reached(client, start, events) == (ExchangeModel::Intercepting {
                    request: now,
                    next: turn,
                })
                &&& answer(client, start, events) == (ActionModel::StoreGet {
                    key: credential_key(),
                })
            } else {
                &&& reached(client, start, events) == (ExchangeModel::InFlight { url: now.url })
                &&& answer(client, start, events) == ActionModel::Dispatch(now)
            }
        }),
    decreases turn,
{
    let start = ExchangeModel::Classifying { request };
    let all = readings(credentials);
    lemma_prefix_step(client, start, all, turn as int + 1);
    if turn == 0 {
        assert(all.take(0) =~= Seq::<EventModel>::empty());
    } else {
        lemma_each_interceptor_once(client, request, credentials, (turn - 1) as nat);
    }
}

/// Once the interceptors have had their turns, none has another, and the
/// request is not dispatched a second time.
pub proof fn lemma_interception_is_over(
    client: ClientModel,
    start: ExchangeModel,
    events: Seq<EventModel>,
)
    requires
        past_interception(start),
    ensures
        past_interception(reached(client, start, events)),
        events.len() > 0 ==> !(answer(client, start, events) is StoreGet) && !(answer(
            client,
            start,
            events,
        ) is Dispatch),
    decreases events.len(),
{
    if events.len() > 0 {
        lemma_interception_is_over(client, start, events.drop_last());
    }
}

/// Where the URL does not call for authentication, no interceptor has a turn:
/// the request is dispatched as it was given, and the store is never read for
/// an interceptor afterwards.
pub proof fn lemma_no_interception_unless_required(
    client: ClientModel,
    request: RequestModel,
    events: Seq<EventModel>,
    k: int,
)
    requires
        1 <= k <= events.len(),
        events[0] == EventModel::Classified(false),
    ensures
        answer(client, ExchangeModel::Classifying { request }, events.take(1))
            == ActionModel::Dispatch(request),
        !(answer(client, ExchangeModel::Classifying { request }, events.take(k)) is StoreGet),
{
    let start = ExchangeModel::Classifying { request };
    lemma_prefix_step(client, start, events, 1);
    assert(events.take(0) =~= Seq::<EventModel>::empty());
    let first = events.take(1);
    let rest = events.subrange(1, k);
    lemma_reached_in_two(client, start, first, rest);
    assert(first + rest =~= events.take(k));
    lemma_interception_is_over(client, reached(client, start, first), rest);
}

/// A send that takes `first` and then `rest` stands where `rest` takes it
/// from where `first` left it, and the last answer is the same either way.
pub proof fn lemma_reached_in_two(
    client: ClientModel,
    start: ExchangeModel,
    first: Seq<EventModel>,
    rest: Seq<EventModel>,
)
    ensures
        reached(client, start, first + rest) == reached(
            client,
            reached(client, start, first),
            rest,
        ),
        rest.len() > 0 ==> answer(client, start, first + rest) == answer(
            client,
            reached(client, start, first),
            rest,
        ),
    decreases rest.len(),
{
    if rest.len() == 0 {
        assert(first + rest =~= first);
    } else {
        lemma_reached_in_two(client, start, first, rest.drop_last());
        assert((first + rest).drop_last() =~= first + rest.drop_last());
        assert((first + rest).last() == rest.last());
    }
}

/// A client that is not bound never reads, writes or deletes a credential and
/// never asks for a body to be read: whatever it hands back is the
/// transport's own response.
pub proof fn lemma_unbound_is_pass_through(
    client: ClientModel,
    request: RequestModel,
    events: Seq<EventModel>,
)
    requires
        client.well_formed(),
        !client.bound,
    ensures
        ({
            let end = reached(client, ExchangeModel::Classifying { request }, events);
            end is Classifying || end is InFlight || end is Done
        }),
        events.len() > 0 ==> ({
            let told = answer(client, ExchangeModel::Classifying { request }, events);
            &&& !touches_store(told)
            &&& !(told is ReadBody)
            &&& !(told is Extract)
            &&& told matches ActionModel::Finish(Ok(response)) ==> response is Streaming
        }),
    decreases events.len(),
{
    if events.len() > 0 {
        lemma_unbound_is_pass_through(client, request, events.drop_last());
    }
}

/// A send that has not seen a response yet has not changed the store.
pub proof fn lemma_no_change_before_response(
    client: ClientModel,
    start: ExchangeModel,
    events: Seq<EventModel>,
    k: int,
)
    requires
        before_response(reached(client, start, events)),
        1 <= k <= events.len(),
    ensures
        !changes_store(answer(client, start, events.take(k))),
    decreases events.len(),
{
    if k == events.len() {
        assert(events.take(k) =~= events);
    } else {
        lemma_no_change_before_response(client, start, events.drop_last(), k);
        assert(events.drop_last().take(k) =~= events.take(k));
    }
}

/// Once a send is over, the driver is told nothing but that it is.
pub proof fn lemma_done_stays_done(client: ClientModel, events: Seq<EventModel>)
    ensures
        reached(client, ExchangeModel::Done, events) is Done,
        events.len() > 0 ==> answer(client, ExchangeModel::Done, events) == ActionModel::Finish(
            Err(SendError::OutOfTurn),
        ),
    decreases events.len(),
{
    if events.len() > 0 {
        lemma_done_stays_done(client, events.drop_last());
    }
}

/// Where the transport fails, the send ends with that failure and the store
/// is not changed: not before the failure, not in answer to it, and not
/// whatever the driver reports afterwards.
pub proof fn lemma_transport_failure_leaves_store(
    client: ClientModel,
    request: RequestModel,
    events: Seq<EventModel>,
    failed: int,
    k: int,
)
    requires
        0 <= failed < events.len(),
        reached(client, ExchangeModel::Classifying { request }, events.take(failed)) is InFlight,
        events[failed] == EventModel::TransportFailed,
        1 <= k <= events.len(),
    ensures
        answer(client, ExchangeModel::Classifying { request }, events.take(failed + 1))
            == ActionModel::Finish(Err(SendError::Transport)),
        !changes_store(answer(client, ExchangeModel::Classifying { request }, events.take(k))),
{
    let start = ExchangeModel::Classifying { request };
    lemma_prefix_step(client, start, events, failed + 1);
    if k <= failed {
        lemma_no_change_before_response(client, start, events.take(failed), k);
        assert(events.take(failed).take(k) =~= events.take(k));
    } else if k > failed + 1 {
        let first = events.take(failed + 1);
        let rest = events.subrange(failed + 1, k);
        lemma_reached_in_two(client, start, first, rest);
        assert(first + rest =~= events.take(k));
        lemma_done_stays_done(client, rest);
    }
}

/// A send whose response body arrives runs the hook on it: the store ends as
/// the hook leaves it, and the caller gets the status and the body that
/// arrived, whether or not the store took the change.
pub proof fn lemma_send_runs_hook(
    client: ClientModel,
    url: Seq<char>,
    status: u16,
    body: Seq<char>,
    extracted: Option<Seq<char>>,
    written: bool,
    store: Store,
)
    ensures
        ({
            let start = ExchangeModel::Buffering { url, status };
            let events = hook_reports(url, body, extracted, written);
            &&& store_through(client, start, events, store) == hook_effect(
                url,
                body,
                extracted,
                store,
            )
            &&& answer(client, start, events) == ActionModel::Finish(
                Ok(ResponseModel::Buffered { status, body }),
            )
            &&& reached(client, start, events) is Done
        }),
{
    let start = ExchangeModel::Buffering { url, status };
    let events = hook_reports(url, body, extracted, written);
    let n = events.len() as int;
    assert(events.take(n) =~= events);
    assert(events.take(0) =~= Seq::<EventModel>::empty());
    lemma_prefix_step(client, start, events, 1);
    assert(store_through(client, start, events.take(0), store) == store);
    lemma_store_prefix(client, start, events, store, 1);
    if n >= 2 {
        lemma_prefix_step(client, start, events, 2);
        lemma_store_prefix(client, start, events, store, 2);
    }
    if n >= 3 {
        lemma_prefix_step(client, start, events, 3);
        lemma_store_prefix(client, start, events, store, 3);
    }
}

/// The store after the first `k` answers is the store after the first
/// `k - 1`, with answer `k` carried out on it.
pub proof fn lemma_store_prefix(
    client: ClientModel,
    start: ExchangeModel,
    events: Seq<EventModel>,
    store: Store,
    k: int,
)
    requires
        1 <= k <= events.len(),
    ensures
        store_through(client, start, events.take(k), store) == store_after(
            answer(client, start, events.take(k)),
            store_through(client, start, events.take(k - 1), store),
        ),
{
    assert(events.take(k).drop_last() =~= events.take(k - 1));
}

} // verus!
