//! The decisions of the server runtime, as state machines that the runtime
//! drives: each step takes the current state and what just happened, and
//! gives the next state and what to do.
//!
//! A connection task goes through `AcceptingTls` (when encryption is on),
//! `ReadingRequest`, `Dispatching`, `WritingResponse`, and ends in `Done` or
//! `Aborted`; it serves one request. The accept loop goes from `Accepting`
//! to `Draining` on shutdown, and to `Stopped` once every connection task
//! has finished or the listener fails.

use bytes::Bytes;
use vstd::prelude::*;

use crate::frame::{RequestFrame, ResponseErrorKind, ResponseFrame};

verus! {

#[derive(Debug, Clone, Copy, PartialEq, Eq, Structural)]
pub enum ConnectionState {
    AcceptingTls,
    ReadingRequest,
    Dispatching,
    WritingResponse,
    Done,
    Aborted,
}

/// What the runtime observed on a connection.
pub enum ConnectionEvent {
    /// The encrypted session was set up.
    TlsEstablished,
    /// The handshake failed.
    TlsFailed,
    /// The framed reader yielded a request frame.
    RequestRead(RequestFrame),
    /// The framed reader failed: a malformed frame or a broken stream.
    ReadFailed,
    /// The peer closed the stream before a whole request arrived.
    EndOfStream,
    /// No service is registered under the request's command.
    ServiceMissing,
    /// The service answered within the time limit.
    CallFinished(Result<Bytes, ResponseErrorKind>),
    /// The time limit elapsed before the service answered.
    CallTimedOut,
    /// The response frame was written.
    ResponseSent,
    /// The response frame could not be written.
    SendFailed,
}

/// What the runtime is to do next on a connection.
pub enum ConnectionAction {
    /// Perform the server side of the TLS handshake.
    Handshake,
    /// Read the next request frame.
    ReadRequest,
    /// Look the frame's command up in the registry and, if it is there, call
    /// the service with the frame's arguments under the time limit.
    Dispatch(RequestFrame),
    /// Write this response frame.
    Send(ResponseFrame),
    /// Close the connection.
    Close,
    /// Report a broken write path as an internal error.
    Fail,
}

/// The transition table of a connection task.
pub open spec fn connection_step(s: ConnectionState, e: ConnectionEvent) -> (
    ConnectionState,
    ConnectionAction,
) {
    match (s, e) {
        (ConnectionState::AcceptingTls, ConnectionEvent::TlsEstablished) => (
            ConnectionState::ReadingRequest,
            ConnectionAction::ReadRequest,
        ),
        (ConnectionState::AcceptingTls, ConnectionEvent::TlsFailed) => (
            ConnectionState::Aborted,
            ConnectionAction::Close,
        ),
        (ConnectionState::ReadingRequest, ConnectionEvent::RequestRead(f)) => (
            ConnectionState::Dispatching,
            ConnectionAction::Dispatch(f),
        ),
        (ConnectionState::ReadingRequest, ConnectionEvent::ReadFailed) => (
            ConnectionState::Aborted,
            ConnectionAction::Close,
        ),
        (ConnectionState::ReadingRequest, ConnectionEvent::EndOfStream) => (
            ConnectionState::Done,
            ConnectionAction::Close,
        ),
        (ConnectionState::Dispatching, ConnectionEvent::ServiceMissing) => (
            ConnectionState::WritingResponse,
            ConnectionAction::Send(ResponseFrame::Error(ResponseErrorKind::MethodNotFound)),
        ),
        (ConnectionState::Dispatching, ConnectionEvent::CallFinished(Ok(b))) => (
            ConnectionState::WritingResponse,
            ConnectionAction::Send(ResponseFrame::Payload(b)),
        ),
        (ConnectionState::Dispatching, ConnectionEvent::CallFinished(Err(k))) => (
            ConnectionState::WritingResponse,
            ConnectionAction::Send(ResponseFrame::Error(k)),
        ),
        (ConnectionState::Dispatching, ConnectionEvent::CallTimedOut) => (
            ConnectionState::WritingResponse,
            ConnectionAction::Send(ResponseFrame::Error(ResponseErrorKind::Timeout)),
        ),
        (ConnectionState::WritingResponse, ConnectionEvent::ResponseSent) => (
            ConnectionState::Done,
            ConnectionAction::Close,
        ),
        (ConnectionState::WritingResponse, ConnectionEvent::SendFailed) => (
            ConnectionState::Aborted,
            ConnectionAction::Fail,
        ),
        (ConnectionState::Done, _) => (ConnectionState::Done, ConnectionAction::Close),
        _ => (ConnectionState::Aborted, ConnectionAction::Close),
    }
}

impl ConnectionState {
    /// The first state of a connection task and its first action.
    pub fn start(tls: bool) -> (r: (ConnectionState, ConnectionAction))
        ensures
            tls ==> r == (ConnectionState::AcceptingTls, ConnectionAction::Handshake),
            !tls ==> r == (ConnectionState::ReadingRequest, ConnectionAction::ReadRequest),
    {
        if tls {
            (ConnectionState::AcceptingTls, ConnectionAction::Handshake)
        } else {
            (ConnectionState::ReadingRequest, ConnectionAction::ReadRequest)
        }
    }

    /// One step of a connection task. An event that does not belong to the
    /// current state aborts the connection; a finished connection stays so.
    pub fn step(self, event: ConnectionEvent) -> (r: (ConnectionState, ConnectionAction))
        ensures
            r == connection_step(self, event),
    {
        match (self, event) {
            (ConnectionState::AcceptingTls, ConnectionEvent::TlsEstablished) => (
                ConnectionState::ReadingRequest,
                ConnectionAction::ReadRequest,
            ),
            (ConnectionState::AcceptingTls, ConnectionEvent::TlsFailed) => (
                ConnectionState::Aborted,
                ConnectionAction::Close,
            ),
            (ConnectionState::ReadingRequest, ConnectionEvent::RequestRead(f)) => (
                ConnectionState::Dispatching,
                ConnectionAction::Dispatch(f),
            ),
            (ConnectionState::ReadingRequest, ConnectionEvent::ReadFailed) => (
                ConnectionState::Aborted,
                ConnectionAction::Close,
            ),
            (ConnectionState::ReadingRequest, ConnectionEvent::EndOfStream) => (
                ConnectionState::Done,
                ConnectionAction::Close,
            ),
            (ConnectionState::Dispatching, ConnectionEvent::ServiceMissing) => (
                ConnectionState::WritingResponse,
                ConnectionAction::Send(ResponseFrame::Error(ResponseErrorKind::MethodNotFound)),
            ),
            (ConnectionState::Dispatching, ConnectionEvent::CallFinished(Ok(b))) => (
                ConnectionState::WritingResponse,
                ConnectionAction::Send(ResponseFrame::Payload(b)),
            ),
            (ConnectionState::Dispatching, ConnectionEvent::CallFinished(Err(k))) => (
                ConnectionState::WritingResponse,
                ConnectionAction::Send(ResponseFrame::Error(k)),
            ),
            (ConnectionState::Dispatching, ConnectionEvent::CallTimedOut) => (
                ConnectionState::WritingResponse,
                ConnectionAction::Send(ResponseFrame::Error(ResponseErrorKind::Timeout)),
            ),
            (ConnectionState::WritingResponse, ConnectionEvent::ResponseSent) => (
                ConnectionState::Done,
                ConnectionAction::Close,
            ),
            (ConnectionState::WritingResponse, ConnectionEvent::SendFailed) => (
                ConnectionState::Aborted,
                ConnectionAction::Fail,
            ),
            (ConnectionState::Done, _) => (ConnectionState::Done, ConnectionAction::Close),
            _ => (ConnectionState::Aborted, ConnectionAction::Close),
        }
    }
}

/// The event that a call under a time limit yields when it is polled: the
/// timer is looked at first, so a call that finishes as the limit elapses
/// counts as timed out. `None` means that neither has happened yet.
pub fn call_event(timer_elapsed: bool, polled: Option<Result<Bytes, ResponseErrorKind>>) -> (r:
    Option<ConnectionEvent>)
    ensures
        timer_elapsed ==> r == Some(ConnectionEvent::CallTimedOut),
        !timer_elapsed ==> match polled {
            Some(out) => r == Some(ConnectionEvent::CallFinished(out)),
            None => r is None,
        },
{
    if timer_elapsed {
        Some(ConnectionEvent::CallTimedOut)
    } else {
        match polled {
            Some(out) => Some(ConnectionEvent::CallFinished(out)),
            None => None,
        }
    }
}

/// The actions of a connection task that is started in `s` and sees `events`.
pub open spec fn connection_run(s: ConnectionState, events: Seq<ConnectionEvent>) -> Seq<
    ConnectionAction,
>
    decreases events.len(),
{
    if events.len() == 0 {
        Seq::empty()
    } else {
        let (t, a) = connection_step(s, events[0]);
        seq![a] + connection_run(t, events.drop_first())
    }
}

/// How many of `actions` write a response frame.
pub open spec fn sends(actions: Seq<ConnectionAction>) -> nat
    decreases actions.len(),
{
    if actions.len() == 0 {
        0
    } else {
        (if actions[0] is Send { 1nat } else { 0nat }) + sends(actions.drop_first())
    }
}

proof fn lemma_finished_sends_nothing(s: ConnectionState, events: Seq<ConnectionEvent>)
    requires
        s == ConnectionState::Done || s == ConnectionState::Aborted || s
            == ConnectionState::WritingResponse,
    ensures
        sends(connection_run(s, events)) == 0,
    decreases events.len(),
{
    if events.len() > 0 {
        let (t, a) = connection_step(s, events[0]);
        lemma_finished_sends_nothing(t, events.drop_first());
        assert((seq![a] + connection_run(t, events.drop_first())).drop_first()
            =~= connection_run(t, events.drop_first()));
    }
}

/// A connection task writes at most one response frame, whatever happens on
/// the connection: one request, then one response.
pub proof fn lemma_one_response_per_connection(tls: bool, events: Seq<ConnectionEvent>)
    ensures
        sends(
            connection_run(
                if tls {
                    ConnectionState::AcceptingTls
                } else {
                    ConnectionState::ReadingRequest
                },
                events,
            ),
        ) <= 1,
{
    lemma_at_most_one_send(
        if tls {
            ConnectionState::AcceptingTls
        } else {
            ConnectionState::ReadingRequest
        },
        events,
    );
}

proof fn lemma_at_most_one_send(s: ConnectionState, events: Seq<ConnectionEvent>)
    ensures
        sends(connection_run(s, events)) <= 1,
    decreases events.len(),
{
    if s == ConnectionState::Done || s == ConnectionState::Aborted || s
        == ConnectionState::WritingResponse {
        lemma_finished_sends_nothing(s, events);
    } else if events.len() > 0 {
        let (t, a) = connection_step(s, events[0]);
        let rest = events.drop_first();
        lemma_at_most_one_send(t, rest);
        assert((seq![a] + connection_run(t, rest)).drop_first() =~= connection_run(t, rest));
        if a is Send {
            lemma_finished_sends_nothing(t, rest);
        }
    }
}

#[derive(Debug, Clone, Copy, PartialEq, Eq, Structural)]
pub enum ServerState {
    Accepting,
    Draining,
    Stopped,
}

/// What the accept loop observed.
#[derive(Debug, Clone, Copy, PartialEq, Eq, Structural)]
pub enum ServerEvent {
    /// The listener handed over a new connection.
    Accepted,
    /// The listener failed.
    AcceptFailed,
    /// The shutdown flag was raised.
    ShutdownRequested,
    /// Every connection task has finished.
    TasksFinished,
}

/// What the accept loop is to do next.
#[derive(Debug, Clone, Copy, PartialEq, Eq, Structural)]
pub enum ServerAction {
    /// Start a connection task for the new connection.
    SpawnConnection,
    /// Close the new connection without serving it.
    DropConnection,
    /// Stop accepting and wait for the running connection tasks.
    Drain,
    /// Keep waiting.
    Wait,
    /// Return from the server, successfully or with the listener's error.
    Exit(bool),
}

/// The transition table of the accept loop.
pub open spec fn server_step(s: ServerState, e: ServerEvent) -> (ServerState, ServerAction) {
    match (s, e) {
        (ServerState::Accepting, ServerEvent::Accepted) => (
            ServerState::Accepting,
            ServerAction::SpawnConnection,
        ),
        (ServerState::Accepting, ServerEvent::AcceptFailed) => (
            ServerState::Stopped,
            ServerAction::Exit(false),
        ),
        (ServerState::Accepting, ServerEvent::ShutdownRequested) => (
            ServerState::Draining,
            ServerAction::Drain,
        ),
        (ServerState::Draining, ServerEvent::TasksFinished) => (
            ServerState::Stopped,
            ServerAction::Exit(true),
        ),
        (_, ServerEvent::Accepted) => (s, ServerAction::DropConnection),
        _ => (s, ServerAction::Wait),
    }
}

impl ServerState {
    /// One step of the accept loop.
    pub fn step(self, event: ServerEvent) -> (r: (ServerState, ServerAction))
        ensures
            r == server_step(self, event),
    {
        match (self, event) {
            (ServerState::Accepting, ServerEvent::Accepted) => (
                ServerState::Accepting,
                ServerAction::SpawnConnection,
            ),
            (ServerState::Accepting, ServerEvent::AcceptFailed) => (
                ServerState::Stopped,
                ServerAction::Exit(false),
            ),
            (ServerState::Accepting, ServerEvent::ShutdownRequested) => (
                ServerState::Draining,
                ServerAction::Drain,
            ),
            (ServerState::Draining, ServerEvent::TasksFinished) => (
                ServerState::Stopped,
                ServerAction::Exit(true),
            ),
            (_, ServerEvent::Accepted) => (self, ServerAction::DropConnection),
            _ => (self, ServerAction::Wait),
        }
    }
}

/// The actions of an accept loop that is started in `s` and sees `events`.
pub open spec fn server_run(s: ServerState, events: Seq<ServerEvent>) -> Seq<ServerAction>
    decreases events.len(),
{
    if events.len() == 0 {
        Seq::empty()
    } else {
        let (t, a) = server_step(s, events[0]);
        seq![a] + server_run(t, events.drop_first())
    }
}

proof fn lemma_no_spawn_once_draining(s: ServerState, events: Seq<ServerEvent>)
    requires
        s != ServerState::Accepting,
    ensures
        server_run(s, events).len() == events.len(),
        forall|j: int|
            0 <= j < events.len() ==> #[trigger] server_run(s, events)[j]
                != ServerAction::SpawnConnection,
    decreases events.len(),
{
    if events.len() > 0 {
        let (t, a) = server_step(s, events[0]);
        let rest = events.drop_first();
        lemma_no_spawn_once_draining(t, rest);
        assert forall|j: int| 0 <= j < events.len() implies #[trigger] server_run(s, events)[j]
            != ServerAction::SpawnConnection by {
            if j > 0 {
                assert(server_run(s, events)[j] == server_run(t, rest)[j - 1]);
            }
        }
    }
}

/// Once the shutdown flag is raised, the accept loop starts no further
/// connection task, whatever it observes afterwards.
pub proof fn lemma_no_admission_after_shutdown(s: ServerState, events: Seq<ServerEvent>, i: int)
    requires
        0 <= i < events.len(),
        events[i] == ServerEvent::ShutdownRequested,
    ensures
        server_run(s, events).len() == events.len(),
        forall|j: int|
            i <= j < events.len() ==> #[trigger] server_run(s, events)[j]
                != ServerAction::SpawnConnection,
    decreases i,
{
    let (t, a) = server_step(s, events[0]);
    let rest = events.drop_first();
    if i == 0 {
        lemma_no_spawn_once_draining(t, rest);
    } else {
        lemma_no_admission_after_shutdown(t, rest, i - 1);
    }
    assert forall|j: int| i <= j < events.len() implies #[trigger] server_run(s, events)[j]
        != ServerAction::SpawnConnection by {
        if j > 0 {
            assert(server_run(s, events)[j] == server_run(t, rest)[j - 1]);
        }
    }
}

} // verus!
