//! A loop that fetches to-device messages and encryption keys.
use crate::sliding_sync;
use crate::sliding_sync::{
    E2EEConfig, ExtensionsConfig, Request, RequestView, Response, ResponseView, ToDeviceConfig,
};
use url::Url;
use vstd::prelude::*;
use vstd::string::*;

verus! {

/// `url::Url`, a parsed URL. Nothing is claimed of its contents: the loop only
/// carries it and prints it.
#[verifier::external_type_specification]
#[verifier::external_body]
pub struct ExUrl(url::Url);

/// How long the server may hold a request back, in seconds. Kept small, as the
/// process running the loop might be short-lived.
pub const LONG_POLL_SECS: u64 = 10;

/// What is granted on top of the long poll for the network's delays, in seconds.
pub const NETWORK_DELAY_SECS: u64 = 10;

/// The state of a to-device loop.
#[derive(Debug)]
pub struct ToDeviceLoop {
    /// Unique identifier of the role of this loop.
    ///
    /// Must be less than 16 chars.
    pub connection_id: String,
    /// Whether the client supports end-to-end encryption.
    pub e2e_encryption: bool,
    /// A homeserver to be used for sliding sync only.
    pub homeserver: Option<Url>,
    /// The token from which the next to-device messages are asked for, read from
    /// the previous response. Saved to and reloaded from the store; none before
    /// the first response.
    pub since_token: Option<String>,
    /// The latest position marker sent by the server.
    pub pos: Option<String>,
    /// The prefix under which the loop is saved. A loop without one is not saved.
    pub storage_key: Option<String>,
}

/// The state of a to-device loop, with its strings as texts.
pub struct LoopState {
    pub connection_id: Seq<char>,
    pub e2e_encryption: bool,
    pub homeserver: Option<Url>,
    pub since_token: Option<Seq<char>>,
    pub pos: Option<Seq<char>>,
    pub storage_key: Option<Seq<char>>,
}

impl View for ToDeviceLoop {
    type V = LoopState;

    open spec fn view(&self) -> LoopState {
        LoopState {
            connection_id: self.connection_id@,
            e2e_encryption: self.e2e_encryption,
            homeserver: self.homeserver,
            since_token: sliding_sync::text(self.since_token),
            pos: sliding_sync::text(self.pos),
            storage_key: sliding_sync::text(self.storage_key),
        }
    }
}

/// The part of a to-device loop that is saved to the store.
#[derive(Debug)]
pub struct FrozenToDeviceLoop {
    pub since_token: Option<String>,
}

/// What the store holds under the key of a loop.
#[derive(Debug)]
pub enum CachedEntry {
    /// Nothing.
    Missing,
    /// A saved loop.
    Saved(FrozenToDeviceLoop),
    /// Something that is not a saved loop.
    Corrupted,
}

/// What a [`CachedEntry`] says; a saved loop is its token.
pub enum CachedEntryView {
    Missing,
    Saved(Option<Seq<char>>),
    Corrupted,
}

impl View for CachedEntry {
    type V = CachedEntryView;

    open spec fn view(&self) -> CachedEntryView {
        match self {
            CachedEntry::Missing => CachedEntryView::Missing,
            CachedEntry::Saved(frozen) => CachedEntryView::Saved(
                sliding_sync::text(frozen.since_token),
            ),
            CachedEntry::Corrupted => CachedEntryView::Corrupted,
        }
    }
}

/// The key under which the loop of the given connection is saved.
pub open spec fn storage_key_of(storage_key: Seq<char>, connection_id: Seq<char>) -> Seq<char> {
    storage_key + "-"@ + connection_id + "-to-device-loop"@
}

impl LoopState {
    /// Whether the connection's identifier keeps to its limit.
    pub open spec fn well_formed(self) -> bool {
        self.connection_id.len() < 16
    }

    /// The key under which the loop is saved, for a loop that is.
    pub open spec fn cache_key(self) -> Option<Seq<char>> {
        match self.storage_key {
            Some(storage_key) => Some(storage_key_of(storage_key, self.connection_id)),
            None => None,
        }
    }

    /// The request that the loop sends in this state.
    pub open spec fn request(self) -> RequestView {
        RequestView {
            pos: self.pos,
            conn_id: Some(self.connection_id),
            timeout_secs: Some(LONG_POLL_SECS),
            to_device_enabled: Some(true),
            to_device_since: self.since_token,
            e2ee_enabled: Some(true),
        }
    }

    /// The state after the store's entry has been read. Only a saved token
    /// changes anything: a token that is set never becomes unset.
    pub open spec fn restored(self, entry: CachedEntryView) -> LoopState {
        match entry {
            CachedEntryView::Saved(Some(token)) if self.storage_key is Some => LoopState {
                since_token: Some(token),
                ..self
            },
            _ => self,
        }
    }

    /// The state after a response has been taken in.
    pub open spec fn handled(self, response: ResponseView) -> LoopState {
        LoopState {
            pos: Some(response.pos),
            since_token: match response.next_batch {
                Some(next_batch) => Some(next_batch),
                None => self.since_token,
            },
            ..self
        }
    }

    /// The state after the server has forgotten the session.
    pub open spec fn invalidated(self) -> LoopState {
        LoopState { pos: None, ..self }
    }
}

/// What [`ToDeviceLoop::sync_once`] needs done next.
#[derive(Debug)]
pub enum SyncOnce<E> {
    /// Read the store's entry; go on with [`ToDeviceLoop::cache_read`].
    ReadCache { key: String },
    /// Remove the store's entry, whatever comes of it; go on with
    /// [`ToDeviceLoop::cache_invalidated`].
    InvalidateCache { key: String },
    /// Send the request, giving up after the timeout; go on with
    /// [`ToDeviceLoop::response_received`].
    Send {
        request: Request,
        request_timeout_secs: u64,
        homeserver: Option<String>,
        /// Whether the client's outgoing encryption requests are to be sent along
        /// with it.
        outgoing_requests: bool,
    },
    /// Go over to a task that is not cancelled with this one, and take the response
    /// handling lock there; go on with [`ToDeviceLoop::handling_begun`]. A response
    /// that is half handled would leave the loop in a state that does not match the
    /// client's, and responses are handled one at a time.
    Handle(Response),
    /// Have the client process the response; go on with
    /// [`ToDeviceLoop::response_processed`].
    Process(Response),
    /// Write the store's entry; go on with [`ToDeviceLoop::cache_written`].
    WriteCache { key: String, entry: FrozenToDeviceLoop },
    /// Give the response handling lock back; go on with
    /// [`ToDeviceLoop::handling_ended`].
    Release(Result<(), E>),
    /// Nothing more: this is the outcome.
    Done(Result<(), E>),
}

/// What a [`SyncOnce`] asks for.
pub enum Plan<E> {
    ReadCache(Seq<char>),
    InvalidateCache(Seq<char>),
    /// Send the request of this state.
    Send(LoopState),
    Handle(ResponseView),
    Process(ResponseView),
    /// Write this token under this key.
    WriteCache(Seq<char>, Option<Seq<char>>),
    Release(Result<(), E>),
    Done(Result<(), E>),
}

impl<E> SyncOnce<E> {
    /// Whether this is what the plan says.
    pub open spec fn follows(self, plan: Plan<E>) -> bool {
        match (self, plan) {
            (SyncOnce::ReadCache { key }, Plan::ReadCache(k)) => key@ == k,
            (SyncOnce::InvalidateCache { key }, Plan::InvalidateCache(k)) => key@ == k,
            (
                SyncOnce::Send { request, request_timeout_secs, homeserver, outgoing_requests },
                Plan::Send(state),
            ) => {
                &&& request@ == state.request()
                &&& request_timeout_secs == LONG_POLL_SECS + NETWORK_DELAY_SECS
                &&& prints_homeserver(state.homeserver, homeserver)
                &&& outgoing_requests == state.e2e_encryption
            },
            (SyncOnce::Handle(response), Plan::Handle(r)) => response@ == r,
            (SyncOnce::Process(response), Plan::Process(r)) => response@ == r,
            (SyncOnce::WriteCache { key, entry }, Plan::WriteCache(k, token)) => {
                &&& key@ == k
                &&& sliding_sync::text(entry.since_token) == token
            },
            (SyncOnce::Release(outcome), Plan::Release(o)) => outcome == o,
            (SyncOnce::Done(outcome), Plan::Done(o)) => outcome == o,
            _ => false,
        }
    }
}

/// Where a synchronisation starts: with the saved loop, if the loop is saved.
pub open spec fn plan_start<E>(state: LoopState) -> Plan<E> {
    match state.cache_key() {
        Some(key) => Plan::ReadCache(key),
        None => Plan::Send(state),
    }
}

/// What follows the reading of the store's entry, given the state after it.
pub open spec fn plan_after_read<E>(
    state: LoopState,
    read: Result<CachedEntryView, E>,
) -> Plan<E> {
    match (read, state.cache_key()) {
        (Err(error), _) => Plan::Done(Err(error)),
        (Ok(CachedEntryView::Corrupted), Some(key)) => Plan::InvalidateCache(key),
        _ => Plan::Send(state),
    }
}

/// What follows the sending of the request.
pub open spec fn plan_after_response<E>(response: Result<ResponseView, E>) -> Plan<E> {
    match response {
        Ok(response) => Plan::Handle(response),
        Err(error) => Plan::Done(Err(error)),
    }
}

/// What follows the processing of the response, given the state after it.
pub open spec fn plan_after_processing<E>(
    state: LoopState,
    processed: Result<(), E>,
) -> Plan<E> {
    match (processed, state.cache_key()) {
        (Err(error), _) => Plan::Release(Err(error)),
        (Ok(()), Some(key)) => Plan::WriteCache(key, state.since_token),
        (Ok(()), None) => Plan::Release(Ok(())),
    }
}

/// What a result says, with its value taken by its view.
pub open spec fn view_of_result<T: View, E>(result: Result<T, E>) -> Result<T::V, E> {
    match result {
        Ok(value) => Ok(value@),
        Err(error) => Err(error),
    }
}

/// The state after the store's entry has been read, or could not be.
pub open spec fn state_after_read<E>(
    state: LoopState,
    read: Result<CachedEntryView, E>,
) -> LoopState {
    match read {
        Ok(entry) => state.restored(entry),
        Err(_) => state,
    }
}

/// The state after the response has been processed, or could not be.
pub open spec fn state_after_processing<E>(
    state: LoopState,
    response: ResponseView,
    processed: Result<(), E>,
) -> LoopState {
    match processed {
        Ok(()) => state.handled(response),
        Err(_) => state,
    }
}

/// Whether `text` is what printing the homeserver gives, where there is one.
pub open spec fn prints_homeserver(homeserver: Option<Url>, text: Option<String>) -> bool {
    match homeserver {
        Some(url) => text is Some && to_string_from_display_ensures::<Url>(&url, text->0),
        None => text is None,
    }
}

fn print_homeserver(homeserver: &Option<Url>) -> (text: Option<String>)
    ensures
        prints_homeserver(*homeserver, text),
        match *homeserver {
            Some(url) => text matches Some(text) && to_string_from_display_ensures::<Url>(
                &url,
                text,
            ),
            None => text is None,
        },
{
    match homeserver {
        Some(url) => Some(url.to_string()),
        None => None,
    }
}

/// A copy of an optional string.
fn copy_text(text: &Option<String>) -> (copy: Option<String>)
    ensures
        copy == *text,
{
    match text {
        Some(text) => Some(text.clone()),
        None => None,
    }
}

impl From<&ToDeviceLoop> for FrozenToDeviceLoop {
    fn from(to_device_loop: &ToDeviceLoop) -> (frozen: Self) {
        FrozenToDeviceLoop { since_token: copy_text(&to_device_loop.since_token) }
    }
}

impl vstd::std_specs::convert::FromSpecImpl<&ToDeviceLoop> for FrozenToDeviceLoop {
    open spec fn obeys_from_spec() -> bool {
        true
    }

    open spec fn from_spec(to_device_loop: &ToDeviceLoop) -> Self {
        FrozenToDeviceLoop { since_token: to_device_loop.since_token }
    }
}

impl ToDeviceLoop {
    /// A loop that has not synchronised yet. Its token, if one is saved, is
    /// reloaded when it first does. `e2e_encryption` tells whether the client
    /// supports end-to-end encryption.
    pub fn new(
        connection_id: String,
        e2e_encryption: bool,
        storage_key: Option<String>,
        homeserver: Option<Url>,
    ) -> (to_device_loop: Self)
        ensures
            to_device_loop@ == (LoopState {
                connection_id: connection_id@,
                e2e_encryption,
                homeserver,
                since_token: None,
                pos: None,
                storage_key: sliding_sync::text(storage_key),
            }),
            to_device_loop.connection_id == connection_id,
            to_device_loop.e2e_encryption == e2e_encryption,
            to_device_loop.homeserver == homeserver,
            to_device_loop.since_token is None,
            to_device_loop.pos is None,
            to_device_loop.storage_key == storage_key,
    {
        ToDeviceLoop {
            connection_id,
            e2e_encryption,
            homeserver,
            since_token: None,
            pos: None,
            storage_key,
        }
    }

    /// Starts a synchronisation.
    ///
    /// The steps are to be taken in turn until [`SyncOnce::Done`];
    /// [`crate::to_device_runs::advance`] leads from one to the next.
    pub fn sync_once<E>(&self) -> (next: SyncOnce<E>)
        ensures
            next.follows(plan_start(self@)),
            match self.storage_key {
                Some(storage_key) => next matches SyncOnce::ReadCache { key } && key@
                    == storage_key@ + "-"@ + self.connection_id@ + "-to-device-loop"@,
                None => next matches SyncOnce::Send {
                    request,
                    request_timeout_secs,
                    homeserver,
                    outgoing_requests,
                } && {
                    &&& request.pos == self.pos
                    &&& request.conn_id == Some(self.connection_id)
                    &&& request.timeout_secs == Some(10u64)
                    &&& request.extensions.to_device.enabled == Some(true)
                    &&& request.extensions.to_device.since == self.since_token
                    &&& request.extensions.e2ee.enabled == Some(true)
                    &&& request_timeout_secs == 20
                    &&& outgoing_requests == self.e2e_encryption
                    &&& match self.homeserver {
                        Some(url) => homeserver matches Some(text) && to_string_from_display_ensures::<Url>(
                            &url,
                            text,
                        ),
                        None => homeserver is None,
                    }
                },
            },
    {
        self.acquire_lock()
    }

    /// Brings the loop up to date with what other processes have saved before
    /// anything is sent.
    fn acquire_lock<E>(&self) -> (next: SyncOnce<E>)
        ensures
            next.follows(plan_start(self@)),
            match self.storage_key {
                Some(storage_key) => next matches SyncOnce::ReadCache { key } && key@
                    == storage_key@ + "-"@ + self.connection_id@ + "-to-device-loop"@,
                None => next matches SyncOnce::Send {
                    request,
                    request_timeout_secs,
                    homeserver,
                    outgoing_requests,
                } && {
                    &&& request.pos == self.pos
                    &&& request.conn_id == Some(self.connection_id)
                    &&& request.timeout_secs == Some(10u64)
                    &&& request.extensions.to_device.enabled == Some(true)
                    &&& request.extensions.to_device.since == self.since_token
                    &&& request.extensions.e2ee.enabled == Some(true)
                    &&& request_timeout_secs == 20
                    &&& outgoing_requests == self.e2e_encryption
                    &&& match self.homeserver {
                        Some(url) => homeserver matches Some(text) && to_string_from_display_ensures::<Url>(
                            &url,
                            text,
                        ),
                        None => homeserver is None,
                    }
                },
            },
    {
        match &self.storage_key {
            Some(storage_key) => SyncOnce::ReadCache {
                key: self.full_storage_key(storage_key.as_str()),
            },
            None => self.send(),
        }
    }

    /// The request of this state, ready to be sent.
    fn send<E>(&self) -> (next: SyncOnce<E>)
        ensures
            next.follows(Plan::Send(self@)),
            next matches SyncOnce::Send {
                request,
                request_timeout_secs,
                homeserver,
                outgoing_requests,
            } && {
                &&& request.pos == self.pos
                &&& request.conn_id == Some(self.connection_id)
                &&& request.timeout_secs == Some(10u64)
                &&& request.extensions.to_device.enabled == Some(true)
                &&& request.extensions.to_device.since == self.since_token
                &&& request.extensions.e2ee.enabled == Some(true)
                &&& request_timeout_secs == 20
                &&& outgoing_requests == self.e2e_encryption
                &&& match self.homeserver {
                    Some(url) => homeserver matches Some(text) && to_string_from_display_ensures::<Url>(
                        &url,
                        text,
                    ),
                    None => homeserver is None,
                }
            },
    {
        let request = Request {
            pos: copy_text(&self.pos),
            conn_id: Some(self.connection_id.clone()),
            timeout_secs: Some(LONG_POLL_SECS),
            extensions: ExtensionsConfig {
                to_device: ToDeviceConfig {
                    enabled: Some(true),
                    since: copy_text(&self.since_token),
                },
                e2ee: E2EEConfig { enabled: Some(true) },
            },
        };
        SyncOnce::Send {
            request,
            request_timeout_secs: LONG_POLL_SECS + NETWORK_DELAY_SECS,
            homeserver: print_homeserver(&self.homeserver),
            outgoing_requests: self.e2e_encryption,
        }
    }

    /// Goes on after [`SyncOnce::ReadCache`].
    pub fn cache_read<E>(&mut self, read: Result<CachedEntry, E>) -> (next: SyncOnce<E>)
        ensures
            final(self)@ == state_after_read(old(self)@, view_of_result(read)),
            next.follows(plan_after_read(final(self)@, view_of_result(read))),
            final(self).connection_id == old(self).connection_id,
            final(self).e2e_encryption == old(self).e2e_encryption,
            final(self).homeserver == old(self).homeserver,
            final(self).pos == old(self).pos,
            final(self).storage_key == old(self).storage_key,
            final(self).since_token == match (read, old(self).storage_key) {
                (
                    Ok(CachedEntry::Saved(FrozenToDeviceLoop { since_token: Some(token) })),
                    Some(_),
                ) => Some(token),
                _ => old(self).since_token,
            },
            match (read, old(self).storage_key) {
                (Err(error), _) => next == SyncOnce::<E>::Done(Err(error)),
                (Ok(CachedEntry::Corrupted), Some(storage_key)) => {
                    next matches SyncOnce::InvalidateCache { key } && key@
                        == storage_key@ + "-"@ + old(self).connection_id@ + "-to-device-loop"@
                },
                _ => next matches SyncOnce::Send {
                    request,
                    request_timeout_secs,
                    homeserver,
                    outgoing_requests,
                } && {
                    &&& request.pos == final(self).pos
                    &&& request.conn_id == Some(final(self).connection_id)
                    &&& request.timeout_secs == Some(10u64)
                    &&& request.extensions.to_device.enabled == Some(true)
                    &&& request.extensions.to_device.since == final(self).since_token
                    &&& request.extensions.e2ee.enabled == Some(true)
                    &&& request_timeout_secs == 20
                    &&& outgoing_requests == final(self).e2e_encryption
                    &&& match final(self).homeserver {
                        Some(url) => homeserver matches Some(text) && to_string_from_display_ensures::<Url>(
                            &url,
                            text,
                        ),
                        None => homeserver is None,
                    }
                },
            },
    {
        match read {
            Ok(entry) => match self.restore_from_cache(entry) {
                Some(key) => SyncOnce::InvalidateCache { key },
                None => self.send(),
            },
            Err(error) => SyncOnce::Done(Err(error)),
        }
    }

    /// Takes over what is saved in the store. Returns the key of the store's entry
    /// if the entry is of no use and is to be removed.
    pub fn restore_from_cache(&mut self, entry: CachedEntry) -> (invalid: Option<String>)
        ensures
            final(self)@ == old(self)@.restored(entry@),
            sliding_sync::text(invalid) == (if entry is Corrupted {
                old(self)@.cache_key()
            } else {
                None
            }),
            final(self).connection_id == old(self).connection_id,
            final(self).e2e_encryption == old(self).e2e_encryption,
            final(self).homeserver == old(self).homeserver,
            final(self).pos == old(self).pos,
            final(self).storage_key == old(self).storage_key,
            final(self).since_token == match (entry, old(self).storage_key) {
                (
                    CachedEntry::Saved(FrozenToDeviceLoop { since_token: Some(token) }),
                    Some(_),
                ) => Some(token),
                _ => old(self).since_token,
            },
            match (entry, old(self).storage_key) {
                (CachedEntry::Corrupted, Some(storage_key)) => invalid matches Some(key) && key@
                    == storage_key@ + "-"@ + old(self).connection_id@ + "-to-device-loop"@,
                _ => invalid is None,
            },
    {
        match &self.storage_key {
            None => None,
            Some(storage_key) => match entry {
                CachedEntry::Saved(frozen) => {
                    // Only rewrite the token if it was set: it never goes from set to unset.
                    if let Some(since_token) = frozen.since_token {
                        self.since_token = Some(since_token);
                    }
                    None
                },
                CachedEntry::Corrupted => Some(self.full_storage_key(storage_key.as_str())),
                CachedEntry::Missing => None,
            },
        }
    }

    /// Goes on after [`SyncOnce::InvalidateCache`].
    pub fn cache_invalidated<E>(&self) -> (next: SyncOnce<E>)
        ensures
            next.follows(Plan::Send(self@)),
            next matches SyncOnce::Send {
                request,
                request_timeout_secs,
                homeserver,
                outgoing_requests,
            } && {
                &&& request.pos == self.pos
                &&& request.conn_id == Some(self.connection_id)
                &&& request.timeout_secs == Some(10u64)
                &&& request.extensions.to_device.enabled == Some(true)
                &&& request.extensions.to_device.since == self.since_token
                &&& request.extensions.e2ee.enabled == Some(true)
                &&& request_timeout_secs == 20
                &&& outgoing_requests == self.e2e_encryption
                &&& match self.homeserver {
                    Some(url) => homeserver matches Some(text) && to_string_from_display_ensures::<Url>(
                        &url,
                        text,
                    ),
                    None => homeserver is None,
                }
            },
    {
        self.send()
    }

    /// Goes on after [`SyncOnce::Send`].
    pub fn response_received<E>(response: Result<Response, E>) -> (next: SyncOnce<E>)
        ensures
            next.follows(plan_after_response(view_of_result(response))),
            next == match response {
                Ok(response) => SyncOnce::<E>::Handle(response),
                Err(error) => SyncOnce::<E>::Done(Err(error)),
            },
    {
        match response {
            Ok(response) => SyncOnce::Handle(response),
            Err(error) => SyncOnce::Done(Err(error)),
        }
    }

    /// Goes on after [`SyncOnce::Handle`].
    pub fn handling_begun<E>(response: Response) -> (next: SyncOnce<E>)
        ensures
            next.follows(Plan::Process(response@)),
            next == SyncOnce::<E>::Process(response),
    {
        SyncOnce::Process(response)
    }

    /// Goes on after [`SyncOnce::Process`].
    pub fn response_processed<E>(
        &mut self,
        response: Response,
        processed: Result<(), E>,
    ) -> (next: SyncOnce<E>)
        ensures
            final(self)@ == state_after_processing(old(self)@, response@, processed),
            next.follows(plan_after_processing(final(self)@, processed)),
            final(self).connection_id == old(self).connection_id,
            final(self).e2e_encryption == old(self).e2e_encryption,
            final(self).homeserver == old(self).homeserver,
            final(self).storage_key == old(self).storage_key,
            final(self).pos == match processed {
                Ok(()) => Some(response.pos),
                Err(_) => old(self).pos,
            },
            final(self).since_token == match (processed, response.extensions.to_device) {
                (Ok(()), Some(to_device)) => Some(to_device.next_batch),
                _ => old(self).since_token,
            },
            match (processed, old(self).storage_key) {
                (Err(error), _) => next == SyncOnce::<E>::Release(Err(error)),
                (Ok(()), None) => next == SyncOnce::<E>::Release(Ok(())),
                (Ok(()), Some(storage_key)) => next matches SyncOnce::WriteCache { key, entry }
                    && key@ == storage_key@ + "-"@ + old(self).connection_id@ + "-to-device-loop"@
                    && entry.since_token == final(self).since_token,
            },
    {
        match self.handle_response(response, processed) {
            Ok(()) => match self.cache_to_storage() {
                Some((key, entry)) => SyncOnce::WriteCache { key, entry },
                None => SyncOnce::Release(Ok(())),
            },
            Err(error) => SyncOnce::Release(Err(error)),
        }
    }

    /// Takes in a response, unless the client failed to process it.
    pub fn handle_response<E>(
        &mut self,
        response: Response,
        processed: Result<(), E>,
    ) -> (handled: Result<(), E>)
        ensures
            final(self)@ == state_after_processing(old(self)@, response@, processed),
            handled == processed,
            final(self).connection_id == old(self).connection_id,
            final(self).e2e_encryption == old(self).e2e_encryption,
            final(self).homeserver == old(self).homeserver,
            final(self).storage_key == old(self).storage_key,
            final(self).pos == match processed {
                Ok(()) => Some(response.pos),
                Err(_) => old(self).pos,
            },
            final(self).since_token == match (processed, response.extensions.to_device) {
                (Ok(()), Some(to_device)) => Some(to_device.next_batch),
                _ => old(self).since_token,
            },
    {
        if processed.is_ok() {
            self.pos = Some(response.pos);
            if let Some(to_device) = response.extensions.to_device {
                self.since_token = Some(to_device.next_batch);
            }
        }
        processed
    }

    /// The full storage key for this loop.
    ///
    /// This must remain stable, as it is used as a key in the store.
    pub fn full_storage_key(&self, storage_key: &str) -> (key: String)
        ensures
            key@ == storage_key_of(storage_key@, self@.connection_id),
            key@ == storage_key@ + "-"@ + self.connection_id@ + "-to-device-loop"@,
    {
        let mut key = storage_key.to_owned();
        key.append("-");
        key.append(self.connection_id.as_str());
        key.append("-to-device-loop");
        key
    }

    /// What is to be written to the store and under which key, for a loop that is
    /// saved.
    pub fn cache_to_storage(&self) -> (entry: Option<(String, FrozenToDeviceLoop)>)
        ensures
            match entry {
                Some((key, frozen)) => {
                    &&& self@.cache_key() == Some(key@)
                    &&& sliding_sync::text(frozen.since_token) == self@.since_token
                },
                None => self@.cache_key() is None,
            },
            match self.storage_key {
                Some(storage_key) => entry matches Some((key, frozen)) && key@
                    == storage_key@ + "-"@ + self.connection_id@ + "-to-device-loop"@
                    && frozen.since_token == self.since_token,
                None => entry is None,
            },
    {
        match &self.storage_key {
            Some(storage_key) => Some(
                (
                    self.full_storage_key(storage_key.as_str()),
                    FrozenToDeviceLoop::from(self),
                ),
            ),
            None => None,
        }
    }

    /// Goes on after [`SyncOnce::WriteCache`].
    pub fn cache_written<E>(written: Result<(), E>) -> (next: SyncOnce<E>)
        ensures
            next.follows(Plan::Release(written)),
            next == SyncOnce::<E>::Release(written),
    {
        SyncOnce::Release(written)
    }

    /// Goes on after [`SyncOnce::Release`].
    pub fn handling_ended<E>(outcome: Result<(), E>) -> (next: SyncOnce<E>)
        ensures
            next.follows(Plan::Done(outcome)),
            next == SyncOnce::<E>::Done(outcome),
    {
        SyncOnce::Done(outcome)
    }

    /// Forgets the session, after the server has said that it does not know the
    /// position marker.
    pub fn invalidate_session(&mut self)
        ensures
            final(self)@ == old(self)@.invalidated(),
            final(self).connection_id == old(self).connection_id,
            final(self).e2e_encryption == old(self).e2e_encryption,
            final(self).homeserver == old(self).homeserver,
            final(self).since_token == old(self).since_token,
            final(self).pos is None,
            final(self).storage_key == old(self).storage_key,
    {
        self.pos = None;
    }
}

/// A change of a loop's state.
pub enum Operation {
    /// The store's entry has been read.
    Restore(CachedEntryView),
    /// A response has been taken in.
    Handle(ResponseView),
    /// The session has been invalidated.
    InvalidateSession,
}

/// The state after one change.
pub open spec fn apply(state: LoopState, operation: Operation) -> LoopState {
    match operation {
        Operation::Restore(entry) => state.restored(entry),
        Operation::Handle(response) => state.handled(response),
        Operation::InvalidateSession => state.invalidated(),
    }
}

/// The state after a history of changes, the oldest first.
pub open spec fn apply_all(state: LoopState, history: Seq<Operation>) -> LoopState
    decreases history.len(),
{
    if history.len() == 0 {
        state
    } else {
        apply(apply_all(state, history.drop_last()), history.last())
    }
}

/// Whatever happens to a loop, its token never goes from set to unset.
pub proof fn since_token_stays_set(state: LoopState, history: Seq<Operation>)
    requires
        state.since_token is Some,
    ensures
        apply_all(state, history).since_token is Some,
    decreases history.len(),
{
    if history.len() > 0 {
        since_token_stays_set(state, history.drop_last());
    }
}

/// Whatever happens to a loop, it stays the same loop: its connection, homeserver,
/// encryption and storage key do not change, so it is saved under the same key, and an
/// identifier within its limit stays within it.
pub proof fn loop_keeps_its_identity(state: LoopState, history: Seq<Operation>)
    ensures
        ({
            let later = apply_all(state, history);
            &&& later.connection_id == state.connection_id
            &&& later.e2e_encryption == state.e2e_encryption
            &&& later.homeserver == state.homeserver
            &&& later.storage_key == state.storage_key
            &&& later.cache_key() == state.cache_key()
            &&& later.well_formed() == state.well_formed()
        }),
    decreases history.len(),
{
    if history.len() > 0 {
        loop_keeps_its_identity(state, history.drop_last());
    }
}

/// What one loop saves, another loop of the same connection and storage key finds:
/// it looks under the key that was written, and comes to have the token that was
/// saved. If none had been saved it keeps the one it has.
pub proof fn saved_token_is_restored<E>(saver: LoopState, reader: LoopState)
    requires
        saver.storage_key is Some,
        reader.storage_key == saver.storage_key,
        reader.connection_id == saver.connection_id,
    ensures
        plan_after_processing::<E>(saver, Ok(())) matches Plan::WriteCache(key, token) && {
            &&& plan_start::<E>(reader) == Plan::<E>::ReadCache(key)
            &&& reader.restored(CachedEntryView::Saved(token)) == (LoopState {
                since_token: if saver.since_token is Some {
                    saver.since_token
                } else {
                    reader.since_token
                },
                ..reader
            })
        },
{
}

/// Under one storage key, loops of different connections are saved under different
/// keys.
pub proof fn connections_are_saved_apart(storage_key: Seq<char>, a: Seq<char>, b: Seq<char>)
    requires
        storage_key_of(storage_key, a) == storage_key_of(storage_key, b),
    ensures
        a == b,
{
    let suffix = "-to-device-loop"@;
    let prefix = storage_key + "-"@;
    let key = storage_key_of(storage_key, a);
    assert(a.len() == b.len()) by {
        assert(key.len() == prefix.len() + a.len() + suffix.len());
        assert(key.len() == prefix.len() + b.len() + suffix.len());
    }
    let end = (prefix.len() + a.len()) as int;
    assert(key.subrange(prefix.len() as int, end) =~= a);
    assert(key.subrange(prefix.len() as int, end) =~= b);
}

/// A loop whose session was invalidated asks for a new session, and for the
/// to-device messages from where it was.
pub proof fn invalidated_session_starts_anew(state: LoopState)
    ensures
        state.invalidated().request() == (RequestView { pos: None, ..state.request() }),
        state.invalidated().since_token == state.since_token,
{
}

/// The request after a response goes on from it: it carries the response's position
/// marker, and the response's token where it has one.
pub proof fn request_goes_on_from_response(state: LoopState, response: ResponseView)
    ensures
        state.handled(response).request() == (RequestView {
            pos: Some(response.pos),
            to_device_since: if response.next_batch is Some {
                response.next_batch
            } else {
                state.request().to_device_since
            },
            ..state.request()
        }),
{
}

} // verus!
