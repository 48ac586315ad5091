//! The protocol server state machine: a transport-agnostic dispatcher that
//! negotiates initialization exactly once and then routes metadata and
//! build requests to the fixed backend.
//!
//! The transports themselves (a single bidirectional stream, or a network
//! listener with one state per connection) live outside the library; they
//! parse requests, load the manifest file for initialize, and call the
//! handlers here. Metadata and build handlers take the state by shared
//! reference, so they can run concurrently once initialized; only the
//! initialize handler takes it exclusively.

use vstd::prelude::*;

use crate::backend::{Backend, BackendFactory, InitializeResult};
use crate::error::{
    BackendErrorV, ErrorObject, INVALID_REQUEST_CODE, SERVER_ERROR_CODE, convert_error,
    invalid_request, message_of,
};
use crate::manifest::Manifest;

verus! {

/// The server state: exactly one of uninitialized (holding the factory) or
/// initialized (holding the backend), for the lifetime of one server or one
/// connection. The only transition is uninitialized to initialized, exactly
/// once.
pub enum ServerState {
    Uninitialized(BackendFactory),
    Initialized(Backend),
}

/// One request arriving at the dispatcher, as far as the state machine is
/// concerned: an initialize request carries what loading the manifest
/// yielded and the optional cache directory; the other requests only read
/// the state.
pub enum RequestEvent {
    Initialize { loaded: Result<Manifest, String>, cache_directory: Option<String> },
    GetCondaMetadata,
    BuildConda,
}

/// An initialize request succeeds exactly when the server is still
/// uninitialized and the manifest loaded with a project name.
pub open spec fn initialize_accepted(s: ServerState, loaded: Result<Manifest, String>) -> bool {
    &&& s is Uninitialized
    &&& loaded is Ok
    &&& loaded->Ok_0@.name is Some
}

/// The state transition of one request: a successful initialize moves to
/// initialized with the backend built from the loaded manifest; every other
/// request, and every failing initialize, leaves the state unchanged.
pub open spec fn step(s: ServerState, e: RequestEvent) -> ServerState {
    match e {
        RequestEvent::Initialize { loaded, cache_directory } => {
            if initialize_accepted(s, loaded) {
                ServerState::Initialized(
                    Backend {
                        policy: s->Uninitialized_0.policy,
                        manifest: loaded->Ok_0,
                        cache_dir: cache_directory,
                    },
                )
            } else {
                s
            }
        },
        RequestEvent::GetCondaMetadata => s,
        RequestEvent::BuildConda => s,
    }
}

/// The state after a whole sequence of requests.
pub open spec fn state_after(s: ServerState, events: Seq<RequestEvent>) -> ServerState
    decreases events.len(),
{
    if events.len() == 0 {
        s
    } else {
        state_after(step(s, events[0]), events.drop_first())
    }
}

impl ServerState {
    /// The backend a metadata or build request dispatches to; before a
    /// successful initialize there is none, and the request is rejected as
    /// invalid.
    pub fn as_protocol(&self) -> (r: Result<&Backend, ErrorObject>)
        ensures
            match r {
                Ok(backend) => self is Initialized && *backend == self->Initialized_0,
                Err(e) => {
                    &&& self is Uninitialized
                    &&& e.code == INVALID_REQUEST_CODE
                    &&& e.message@ == "Invalid request"@
                },
            },
    {
        match self {
            ServerState::Initialized(backend) => Ok(backend),
            ServerState::Uninitialized(_) => Err(invalid_request()),
        }
    }
}

/// The initialize handler: performs the one-shot transition. A second
/// initialize after a successful one is rejected as invalid-request and
/// changes nothing; a failing construction reports the backend error and
/// leaves the server uninitialized, so the connection remains usable.
pub fn handle_initialize(
    state: &mut ServerState,
    loaded: Result<Manifest, String>,
    cache_directory: Option<String>,
) -> (r: Result<InitializeResult, ErrorObject>)
    ensures
        *final(state) == step(
            *old(state),
            RequestEvent::Initialize { loaded, cache_directory },
        ),
        match r {
            Ok(res) => {
                &&& initialize_accepted(*old(state), loaded)
                &&& res.capabilities.provides_conda_metadata == Some(true)
                &&& res.capabilities.provides_conda_build == Some(true)
            },
            Err(e) => {
                &&& !initialize_accepted(*old(state), loaded)
                &&& (*old(state) is Initialized ==> e.code == INVALID_REQUEST_CODE && e.message@
                    == "Invalid request"@)
                &&& (*old(state) is Uninitialized ==> e.code == SERVER_ERROR_CODE && e.message@
                    == message_of(
                    match loaded {
                        Err(message) => BackendErrorV::InvalidManifest(message@),
                        Ok(m) => BackendErrorV::MissingProjectName,
                    },
                ))
            },
        },
{
    let policy = match &*state {
        ServerState::Uninitialized(factory) => factory.policy,
        ServerState::Initialized(_) => {
            return Err(invalid_request());
        },
    };
    let factory = BackendFactory { policy };
    match factory.initialize(loaded, cache_directory) {
        Err(e) => Err(convert_error(&e)),
        Ok((backend, result)) => {
            *state = ServerState::Initialized(backend);
            Ok(result)
        },
    }
}

/// Once initialized, the server stays initialized with the same backend, no
/// matter which requests follow and in which number.
pub proof fn lemma_initialized_forever(s: ServerState, events: Seq<RequestEvent>)
    requires
        s is Initialized,
    ensures
        state_after(s, events) == s,
    decreases events.len(),
{
    if events.len() > 0 {
        assert(step(s, events[0]) == s);
        lemma_initialized_forever(s, events.drop_first());
    }
}

/// A second initialize after a successful first one always fails and
/// changes nothing, regardless of how many other requests occurred between
/// them.
pub proof fn lemma_second_initialize_fails(
    s: ServerState,
    events: Seq<RequestEvent>,
    loaded: Result<Manifest, String>,
    cache_directory: Option<String>,
)
    requires
        s is Initialized,
    ensures
        !initialize_accepted(state_after(s, events), loaded),
        step(
            state_after(s, events),
            RequestEvent::Initialize { loaded, cache_directory },
        ) == state_after(s, events),
{
    lemma_initialized_forever(s, events);
}

/// Before any successful initialize the server stays uninitialized: no
/// sequence of metadata or build requests can reach the initialized state,
/// so every one of them is rejected.
pub proof fn lemma_requests_before_initialize_fail(s: ServerState, events: Seq<RequestEvent>)
    requires
        s is Uninitialized,
        forall|i: int| 0 <= i < events.len() ==> !(#[trigger] events[i] is Initialize),
    ensures
        state_after(s, events) == s,
    decreases events.len(),
{
    if events.len() > 0 {
        assert(step(s, events[0]) == s);
        assert(forall|i: int|
            0 <= i < events.drop_first().len() ==> !(#[trigger] events.drop_first()[i]
                is Initialize));
        lemma_requests_before_initialize_fail(s, events.drop_first());
    }
}

/// The server around one state: constructed uninitialized from a factory.
pub struct Server {
    pub state: ServerState,
}

impl Server {
    /// A new server that will build its backend from the factory on the
    /// first successful initialize request.
    pub fn new(factory: BackendFactory) -> (r: Server)
        ensures
            r.state == ServerState::Uninitialized(factory),
    {
        Server { state: ServerState::Uninitialized(factory) }
    }
}

} // verus!
