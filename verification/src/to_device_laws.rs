//! What the model of a to-device loop amounts to, in plain values.
use crate::sliding_sync;
use crate::sliding_sync::{Request, RequestView, Response, ResponseView};
use crate::to_device;
use crate::to_device::{
    CachedEntry, CachedEntryView, FrozenToDeviceLoop, LoopState, Plan, SyncOnce, ToDeviceLoop,
};
use crate::to_device_runs;
use crate::to_device_runs::{Outcome, Outcomes, Others, Progress, SyncOnceEvent};
use url::Url;
use vstd::prelude::*;
use vstd::string::*;

verus! {

/// In every state the request asks for to-device messages and for encryption keys,
/// names the connection, lets the server hold it back for ten seconds, and goes on
/// from the position marker and the token that the loop has.
pub proof fn every_request_asks_for_messages_and_keys(state: LoopState)
    ensures
        state.request().to_device_enabled == Some(true),
        state.request().e2ee_enabled == Some(true),
        state.request().conn_id == Some(state.connection_id),
        state.request().timeout_secs == Some(10u64),
        state.request().pos == state.pos,
        state.request().to_device_since == state.since_token,
{
}

/// Loops that differ in their homeserver, storage key or encryption alone send the
/// same request.
pub proof fn request_is_the_same_for_every_homeserver(a: LoopState, b: LoopState)
    requires
        a.connection_id == b.connection_id,
        a.pos == b.pos,
        a.since_token == b.since_token,
    ensures
        a.request() == b.request(),
{
}

/// A step that sends the request of a loop carries, field by field: the loop's
/// position marker, connection and token, both extensions switched on, a long poll of
/// ten seconds and a timeout of twenty, the printed homeserver where there is one,
/// and the outgoing encryption requests where the client supports encryption.
pub proof fn sent_request_is_complete<E>(to_device_loop: ToDeviceLoop, step: SyncOnce<E>)
    requires
        step.follows(Plan::Send(to_device_loop@)),
    ensures
        (step matches SyncOnce::Send {
            request,
            request_timeout_secs,
            homeserver,
            outgoing_requests,
        } && {
            &&& request.extensions.to_device.enabled == Some(true)
            &&& request.extensions.e2ee.enabled == Some(true)
            &&& request.timeout_secs == Some(10u64)
            &&& request_timeout_secs == 20
            &&& request.conn_id matches Some(conn_id) && conn_id@ == to_device_loop.connection_id@
            &&& request.pos is Some == to_device_loop.pos is Some
            &&& request.pos is Some ==> request.pos->0@ == to_device_loop.pos->0@
            &&& request.extensions.to_device.since is Some == to_device_loop.since_token is Some
            &&& request.extensions.to_device.since is Some
                ==> request.extensions.to_device.since->0@ == to_device_loop.since_token->0@
            &&& outgoing_requests == to_device_loop.e2e_encryption
            &&& homeserver is Some == to_device_loop.homeserver is Some
            &&& homeserver is Some ==> to_string_from_display_ensures::<Url>(
                &to_device_loop.homeserver->0,
                homeserver->0,
            )
        }),
{
}

/// A key is made of the whole storage key, a dash, the whole connection identifier
/// and a fixed ending, and of nothing else.
pub proof fn key_is_made_of_its_whole_parts(storage_key: Seq<char>, connection_id: Seq<char>)
    ensures
        ({
            let key = to_device::storage_key_of(storage_key, connection_id);
            let dash = storage_key.len() as int;
            let end = dash + 1 + connection_id.len();
            &&& key.len() == storage_key.len() + 1 + connection_id.len() + 15
            &&& key.take(dash) == storage_key
            &&& key[dash] == '-'
            &&& key.subrange(dash + 1, end) == connection_id
            &&& key.skip(end) == "-to-device-loop"@
        }),
{
    reveal_strlit("-");
    reveal_strlit("-to-device-loop");
    let key = to_device::storage_key_of(storage_key, connection_id);
    let dash = storage_key.len() as int;
    let end = dash + 1 + connection_id.len();
    assert(key.take(dash) =~= storage_key);
    assert(key.subrange(dash + 1, end) =~= connection_id);
    assert(key.skip(end) =~= "-to-device-loop"@);
}

/// For one connection, loops of different storage keys are saved under different
/// keys.
pub proof fn storage_keys_are_saved_apart(a: Seq<char>, b: Seq<char>, connection_id: Seq<char>)
    requires
        to_device::storage_key_of(a, connection_id) == to_device::storage_key_of(b, connection_id),
    ensures
        a == b,
{
    key_is_made_of_its_whole_parts(a, connection_id);
    key_is_made_of_its_whole_parts(b, connection_id);
}

/// A loop is saved under a key exactly if it has a storage key, and under the key that
/// is made of that and of its connection, whatever else its state is.
pub proof fn loop_is_saved_under_its_own_key(state: LoopState)
    ensures
        state.cache_key() is Some <==> state.storage_key is Some,
        state.cache_key() matches Some(key) ==> key == state.storage_key->0 + "-"@
            + state.connection_id + "-to-device-loop"@,
{
}

/// After a response the loop has the response's position marker, and its token if it
/// has one, else the token from before. The rest is as before.
pub proof fn response_is_remembered(state: LoopState, response: ResponseView)
    ensures
        state.handled(response).pos == Some(response.pos),
        response.next_batch is Some ==> state.handled(response).since_token == response.next_batch,
        response.next_batch is None ==> state.handled(response).since_token == state.since_token,
        state.handled(response).connection_id == state.connection_id,
        state.handled(response).e2e_encryption == state.e2e_encryption,
        state.handled(response).homeserver == state.homeserver,
        state.handled(response).storage_key == state.storage_key,
{
}

/// The store's entry changes nothing but the token, and that only to a token which is
/// saved, and only in a loop that is saved.
pub proof fn only_a_saved_token_is_restored(state: LoopState, entry: CachedEntryView)
    ensures
        state.storage_key is Some ==> (entry matches CachedEntryView::Saved(Some(token))
            ==> state.restored(entry).since_token == Some(token)),
        state.storage_key is None || !(entry matches CachedEntryView::Saved(saved)
            && saved is Some) ==> state.restored(entry) == state,
        state.restored(entry).pos == state.pos,
        state.restored(entry).connection_id == state.connection_id,
        state.restored(entry).e2e_encryption == state.e2e_encryption,
        state.restored(entry).homeserver == state.homeserver,
        state.restored(entry).storage_key == state.storage_key,
{
}

/// To invalidate the session forgets the position marker and nothing else.
pub proof fn only_the_position_is_invalidated(state: LoopState)
    ensures
        state.invalidated().pos is None,
        state.invalidated().since_token == state.since_token,
        state.invalidated().connection_id == state.connection_id,
        state.invalidated().e2e_encryption == state.e2e_encryption,
        state.invalidated().homeserver == state.homeserver,
        state.invalidated().storage_key == state.storage_key,
{
}

/// The last response decides: after two responses the loop has the position marker of
/// the second, and the newest token that one of them had.
pub proof fn later_response_prevails(state: LoopState, first: ResponseView, second: ResponseView)
    ensures
        ({
            let after = state.handled(first).handled(second);
            &&& after.pos == Some(second.pos)
            &&& after.since_token == if second.next_batch is Some {
                second.next_batch
            } else if first.next_batch is Some {
                first.next_batch
            } else {
                state.since_token
            }
        }),
{
}

/// The model of a loop has what the loop has, field by field.
pub proof fn model_has_what_the_loop_has(to_device_loop: ToDeviceLoop)
    ensures
        to_device_loop@.connection_id == to_device_loop.connection_id@,
        to_device_loop@.e2e_encryption == to_device_loop.e2e_encryption,
        to_device_loop@.homeserver == to_device_loop.homeserver,
        to_device_loop@.since_token is Some == to_device_loop.since_token is Some,
        to_device_loop.since_token is Some ==> to_device_loop@.since_token->0
            == to_device_loop.since_token->0@,
        to_device_loop@.pos is Some == to_device_loop.pos is Some,
        to_device_loop.pos is Some ==> to_device_loop@.pos->0 == to_device_loop.pos->0@,
        to_device_loop@.storage_key is Some == to_device_loop.storage_key is Some,
        to_device_loop.storage_key is Some ==> to_device_loop@.storage_key->0
            == to_device_loop.storage_key->0@,
{
}

/// The models of a request, a response and a store's entry have what those have, field
/// by field.
pub proof fn models_have_what_the_messages_have(
    request: Request,
    response: Response,
    entry: CachedEntry,
)
    ensures
        request@.pos is Some == request.pos is Some,
        request.pos is Some ==> request@.pos->0 == request.pos->0@,
        request@.conn_id is Some == request.conn_id is Some,
        request.conn_id is Some ==> request@.conn_id->0 == request.conn_id->0@,
        request@.timeout_secs == request.timeout_secs,
        request@.to_device_enabled == request.extensions.to_device.enabled,
        request@.to_device_since is Some == request.extensions.to_device.since is Some,
        request@.to_device_since is Some ==> request@.to_device_since->0
            == request.extensions.to_device.since->0@,
        request@.e2ee_enabled == request.extensions.e2ee.enabled,
        response@.pos == response.pos@,
        response@.next_batch is Some == response.extensions.to_device is Some,
        response@.next_batch is Some ==> response@.next_batch->0
            == response.extensions.to_device->0.next_batch@,
        entry@ is Missing == entry is Missing,
        entry@ is Corrupted == entry is Corrupted,
        entry matches CachedEntry::Saved(frozen) ==> entry@ == CachedEntryView::Saved(
            match frozen.since_token {
                Some(token) => Some(token@),
                None => None,
            },
        ),
{
}

/// A frozen loop has the loop's token.
pub proof fn frozen_loop_has_the_token(to_device_loop: &ToDeviceLoop)
    ensures
        <FrozenToDeviceLoop as vstd::std_specs::convert::FromSpec<&ToDeviceLoop>>::from_spec(
            to_device_loop,
        ).since_token == to_device_loop.since_token,
        <FrozenToDeviceLoop as vstd::std_specs::convert::FromSpec<
            &ToDeviceLoop,
        >>::obeys_from_spec(),
{
}

/// A synchronisation starts with reading the store if the loop is saved, and with
/// sending the loop's own request if it is not.
pub proof fn saved_loop_is_read_first<E>(state: LoopState)
    ensures
        state.storage_key matches Some(storage_key) ==> Progress::<E>::start(state).plan
            == Plan::<E>::ReadCache(
            storage_key + "-"@ + state.connection_id + "-to-device-loop"@,
        ),
        state.storage_key is None ==> Progress::<E>::start(state).plan == Plan::<E>::Send(state),
        Progress::<E>::start(state).state == state,
{
}

/// What follows the reading of the store: the failure where it failed, the removal of
/// a corrupted entry, and else the request of the loop with the saved token.
pub proof fn reading_leads_to_the_request<E>(
    state: LoopState,
    key: Seq<char>,
    read: Result<CachedEntryView, E>,
)
    requires
        state.storage_key is Some,
    ensures
        ({
            let next = (Progress { state, plan: Plan::<E>::ReadCache(key) }).next(
                Outcome::CacheRead(read),
            );
            match read {
                Err(error) => next == (Progress { state, plan: Plan::<E>::Done(Err(error)) }),
                Ok(CachedEntryView::Corrupted) => next == (Progress {
                    state,
                    plan: Plan::<E>::InvalidateCache(
                        state.storage_key->0 + "-"@ + state.connection_id + "-to-device-loop"@,
                    ),
                }),
                Ok(CachedEntryView::Saved(Some(token))) => {
                    let restored = LoopState { since_token: Some(token), ..state };
                    next == (Progress { state: restored, plan: Plan::<E>::Send(restored) })
                },
                _ => next == (Progress { state, plan: Plan::<E>::Send(state) }),
            }
        }),
{
}

/// What follows the removal of an entry, whatever came of it: the request.
pub proof fn removal_leads_to_the_request<E>(
    state: LoopState,
    key: Seq<char>,
    removed: Result<(), E>,
)
    ensures
        (Progress { state, plan: Plan::<E>::InvalidateCache(key) }).next(
            Outcome::CacheInvalidated(removed),
        ) == (Progress { state, plan: Plan::<E>::Send(state) }),
{
}

/// What follows the request, whatever came of the outgoing encryption requests: the
/// handling of the very response that was received, or the failure.
pub proof fn request_leads_to_the_response<E>(
    state: LoopState,
    sent: LoopState,
    outgoing: Option<Result<(), E>>,
    response: Result<ResponseView, E>,
)
    ensures
        (Progress { state, plan: Plan::<E>::Send(sent) }).next(
            Outcome::Received(outgoing, response),
        ) == (Progress {
            state,
            plan: match response {
                Ok(response) => Plan::<E>::Handle(response),
                Err(error) => Plan::<E>::Done(Err(error)),
            },
        }),
{
}

/// What follows once a response is being handled: it is processed, what it says is
/// taken in if that went well, the token is written if the loop is saved, the lock is
/// given back, and the outcome is that of the first of these that failed.
pub proof fn handling_leads_to_the_outcome<E>(
    state: LoopState,
    response: ResponseView,
    processed: Result<(), E>,
    written: Result<(), E>,
    key: Seq<char>,
    token: Option<Seq<char>>,
    outcome: Result<(), E>,
)
    ensures
        (Progress { state, plan: Plan::<E>::Handle(response) }).next(Outcome::HandlingBegun) == (
        Progress { state, plan: Plan::<E>::Process(response) }),
        ({
            let next = (Progress { state, plan: Plan::<E>::Process(response) }).next(
                Outcome::Processed(processed),
            );
            let newest = if response.next_batch is Some {
                response.next_batch
            } else {
                state.since_token
            };
            match processed {
                Err(error) => next == (Progress { state, plan: Plan::<E>::Release(Err(error)) }),
                Ok(()) => {
                    &&& next.state == (LoopState {
                        pos: Some(response.pos),
                        since_token: newest,
                        ..state
                    })
                    &&& next.plan == match state.storage_key {
                        Some(storage_key) => Plan::<E>::WriteCache(
                            storage_key + "-"@ + state.connection_id + "-to-device-loop"@,
                            newest,
                        ),
                        None => Plan::<E>::Release(Ok(())),
                    }
                },
            }
        }),
        (Progress { state, plan: Plan::<E>::WriteCache(key, token) }).next(
            Outcome::CacheWritten(written),
        ) == (Progress { state, plan: Plan::<E>::Release(written) }),
        (Progress { state, plan: Plan::<E>::Release(outcome) }).next(Outcome::HandlingEnded) == (
        Progress { state, plan: Plan::<E>::Done(outcome) }),
{
}

/// What cannot have come of a step changes nothing, and nothing follows the end.
pub proof fn foreign_outcome_changes_nothing<E>(point: Progress<E>, outcome: Outcome<E>)
    requires
        match point.plan {
            Plan::ReadCache(_) => !(outcome is CacheRead),
            Plan::InvalidateCache(_) => !(outcome is CacheInvalidated),
            Plan::Send(_) => !(outcome is Received),
            Plan::Handle(_) => !(outcome is HandlingBegun),
            Plan::Process(_) => !(outcome is Processed),
            Plan::WriteCache(_, _) => !(outcome is CacheWritten),
            Plan::Release(_) => !(outcome is HandlingEnded),
            Plan::Done(_) => true,
        },
    ensures
        point.next(outcome) == point,
        !point.awaits(outcome),
{
}

/// A step follows a plan only if it is the step that the plan names, with what the
/// plan says in it.
pub proof fn step_says_what_its_plan_says<E>(step: SyncOnce<E>, plan: Plan<E>)
    requires
        step.follows(plan),
    ensures
        match plan {
            Plan::ReadCache(k) => step matches SyncOnce::ReadCache { key } && key@ == k,
            Plan::InvalidateCache(k) => step matches SyncOnce::InvalidateCache { key } && key@ == k,
            Plan::Send(_) => step is Send,
            Plan::Handle(r) => step matches SyncOnce::Handle(response) && response@ == r,
            Plan::Process(r) => step matches SyncOnce::Process(response) && response@ == r,
            Plan::WriteCache(k, token) => {
                step matches SyncOnce::WriteCache { key, entry } && key@ == k && token
                    == match entry.since_token {
                    Some(since_token) => Some(since_token@),
                    None => None,
                }
            },
            Plan::Release(o) => step == SyncOnce::<E>::Release(o),
            Plan::Done(o) => step == SyncOnce::<E>::Done(o),
        },
{
}

/// A step that is taken carries out the plan that it names.
pub proof fn step_carries_out_what_it_says<E>(step: SyncOnce<E>, state: LoopState)
    ensures
        to_device_runs::plan_of(step, state) == match step {
            SyncOnce::ReadCache { key } => Plan::<E>::ReadCache(key@),
            SyncOnce::InvalidateCache { key } => Plan::InvalidateCache(key@),
            SyncOnce::Send { .. } => Plan::Send(state),
            SyncOnce::Handle(response) => Plan::Handle(response@),
            SyncOnce::Process(response) => Plan::Process(response@),
            SyncOnce::WriteCache { key, entry } => Plan::WriteCache(
                key@,
                match entry.since_token {
                    Some(since_token) => Some(since_token@),
                    None => None,
                },
            ),
            SyncOnce::Release(outcome) => Plan::Release(outcome),
            SyncOnce::Done(outcome) => Plan::Done(outcome),
        },
{
}

/// An event says what came of the step, and nothing else.
pub proof fn outcome_says_what_came<E>(event: SyncOnceEvent<E>)
    ensures
        match event {
            SyncOnceEvent::CacheRead(Ok(entry)) => event@ == Outcome::<E>::CacheRead(Ok(entry@)),
            SyncOnceEvent::CacheRead(Err(error)) => event@ == Outcome::<E>::CacheRead(Err(error)),
            SyncOnceEvent::CacheInvalidated(removed) => event@
                == Outcome::<E>::CacheInvalidated(removed),
            SyncOnceEvent::Received { outgoing, response: Ok(response) } => event@
                == Outcome::<E>::Received(outgoing, Ok(response@)),
            SyncOnceEvent::Received { outgoing, response: Err(error) } => event@
                == Outcome::<E>::Received(outgoing, Err(error)),
            SyncOnceEvent::HandlingBegun => event@ == Outcome::<E>::HandlingBegun,
            SyncOnceEvent::Processed(processed) => event@ == Outcome::<E>::Processed(processed),
            SyncOnceEvent::CacheWritten(written) => event@ == Outcome::<E>::CacheWritten(written),
            SyncOnceEvent::HandlingEnded => event@ == Outcome::<E>::HandlingEnded,
        },
{
}

/// Every request that a synchronisation comes to send, whatever came of its steps
/// before and whatever others did to the loop, asks for to-device messages and for
/// encryption keys over the loop's own connection.
pub proof fn every_synchronisation_asks_for_messages_and_keys<E>(
    state: LoopState,
    outcomes: Outcomes<E>,
    others: Others,
    steps: nat,
)
    ensures
        to_device_runs::point_after(state, outcomes, others, steps).plan matches Plan::Send(sent)
            ==> sent.request() == (RequestView {
            pos: sent.pos,
            conn_id: Some(state.connection_id),
            timeout_secs: Some(10u64),
            to_device_enabled: Some(true),
            to_device_since: sent.since_token,
            e2ee_enabled: Some(true),
        }) && sent.homeserver == state.homeserver && sent.e2e_encryption == state.e2e_encryption,
{
    to_device_runs::request_is_up_to_date(state, outcomes, others, steps);
    loop_stays_the_same(state, outcomes, others, steps);
}

/// A synchronisation and the others leave the loop the same loop.
proof fn loop_stays_the_same<E>(
    state: LoopState,
    outcomes: Outcomes<E>,
    others: Others,
    steps: nat,
)
    ensures
        ({
            let later = to_device_runs::point_after(state, outcomes, others, steps).state;
            &&& later.connection_id == state.connection_id
            &&& later.homeserver == state.homeserver
            &&& later.e2e_encryption == state.e2e_encryption
        }),
    decreases steps,
{
    if steps > 0 {
        let before = (steps - 1) as nat;
        loop_stays_the_same(state, outcomes, others, before);
        to_device::loop_keeps_its_identity(
            to_device_runs::point_after(state, outcomes, others, before).state,
            others(before),
        );
    }
}

/// The text of an optional string is the string's, where there is one.
pub proof fn text_is_the_whole_text(string: Option<String>)
    ensures
        sliding_sync::text(string) == match string {
            Some(string) => Some(string@),
            None => None,
        },
{
}

} // verus!
