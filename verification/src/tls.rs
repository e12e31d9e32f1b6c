//! What follows a TLS handshake: which HTTP mode a connection is served in,
//! and the life of an accepted connection from handshake to close.
//!
//! The handshake itself, the encrypted stream and the HTTP server belong to
//! the caller. It reports what happened as an [`Event`], and [`step`]
//! answers with the connection's next state and what to do.

use crate::text::str_eq;
use vstd::prelude::*;

verus! {

/// An HTTP wire-protocol mode, named during the handshake by its ALPN
/// identifier.
#[derive(Clone, Copy, PartialEq, Eq, Structural, Debug)]
pub enum Protocol {
    Http1,
    Http2,
}

impl Protocol {
    /// The ALPN identifier of the protocol.
    pub open spec fn id(self) -> Seq<char> {
        match self {
            Protocol::Http1 => "http/1.1"@,
            Protocol::Http2 => "h2"@,
        }
    }

    /// The ALPN identifier of the protocol, as it is advertised and as a
    /// handshake reports it.
    pub fn alpn_id(self) -> (id: &'static str)
        ensures
            id@ == self.id(),
    {
        match self {
            Protocol::Http1 => "http/1.1",
            Protocol::Http2 => "h2",
        }
    }
}

/// The protocols a server advertises, most preferred first.
pub open spec fn preference() -> Seq<Protocol> {
    seq![Protocol::Http2, Protocol::Http1]
}

/// The protocols to advertise in the handshake, in order of preference:
/// HTTP/2 before HTTP/1.1.
pub fn advertised() -> (list: Vec<Protocol>)
    ensures
        list@ == preference(),
{
    let mut list: Vec<Protocol> = Vec::new();
    list.push(Protocol::Http2);
    list.push(Protocol::Http1);
    list
}

/// The advertised identifiers as the handshake takes them: one entry per
/// protocol of [`preference`], in that order, none with a NUL in it.
pub fn alpn_list() -> (list: Vec<&'static str>)
    ensures
        list@.len() == preference().len(),
        forall|i: int|
            0 <= i < list@.len() ==> (#[trigger] list@[i])@ == preference()[i].id() && !list@[i]@.contains(
                '\0',
            ),
{
    let mut list: Vec<&'static str> = Vec::new();
    list.push(Protocol::Http2.alpn_id());
    list.push(Protocol::Http1.alpn_id());
    proof {
        reveal_strlit("h2");
        reveal_strlit("http/1.1");
    }
    list
}

/// The protocol of [`preference`] that `id` names, if any.
pub open spec fn named(id: Seq<char>) -> Option<Protocol> {
    if id == Protocol::Http1.id() {
        Some(Protocol::Http1)
    } else if id == Protocol::Http2.id() {
        Some(Protocol::Http2)
    } else {
        None
    }
}

/// The mode a connection is served in, given what the handshake
/// negotiated. A peer that agreed to nothing, or that does not negotiate at
/// all, is served HTTP/1.1. A negotiated identifier outside the advertised
/// set selects nothing.
pub open spec fn selected(negotiated: Option<&str>) -> Option<Protocol> {
    match negotiated {
        None => Some(Protocol::Http1),
        Some(id) => named(id@),
    }
}

/// Selects the mode for a connection, or nothing when the handshake
/// reports a protocol that was never advertised.
pub fn try_select_protocol(negotiated: Option<&str>) -> (mode: Option<Protocol>)
    ensures
        mode == selected(negotiated),
{
    match negotiated {
        None => Some(Protocol::Http1),
        Some(id) => {
            if str_eq(id, Protocol::Http1.alpn_id()) {
                Some(Protocol::Http1)
            } else if str_eq(id, Protocol::Http2.alpn_id()) {
                Some(Protocol::Http2)
            } else {
                None
            }
        },
    }
}

/// Selects the mode for a connection whose handshake kept to the
/// advertised set.
pub fn select_protocol(negotiated: Option<&str>) -> (mode: Protocol)
    requires
        selected(negotiated) is Some,
    ensures
        selected(negotiated) == Some(mode),
{
    match try_select_protocol(negotiated) {
        Some(mode) => mode,
        None => vstd::pervasive::unreached(),
    }
}

/// Which side of the handshake an endpoint plays.
#[derive(Clone, Copy, PartialEq, Eq, Structural, Debug)]
pub enum Endpoint {
    Client,
    Server,
}

/// What the TLS records travel over.
#[derive(Clone, Copy, PartialEq, Eq, Structural, Debug)]
pub enum Transport {
    Stream,
    Datagram,
}

/// A named choice of cipher suites and protocol versions.
#[derive(Clone, Copy, PartialEq, Eq, Structural, Debug)]
pub enum Preset {
    Default,
    SuiteB,
}

/// The fixed part of every handshake this server performs.
pub struct ServerSetup {
    pub endpoint: Endpoint,
    pub transport: Transport,
    pub preset: Preset,
    pub alpn: Vec<Protocol>,
}

/// The setup of a handshake: server side, over a stream, with the default
/// security preset, advertising [`preference`].
pub fn server_setup() -> (setup: ServerSetup)
    ensures
        setup.endpoint == Endpoint::Server,
        setup.transport == Transport::Stream,
        setup.preset == Preset::Default,
        setup.alpn@ == preference(),
{
    ServerSetup {
        endpoint: Endpoint::Server,
        transport: Transport::Stream,
        preset: Preset::Default,
        alpn: advertised(),
    }
}

/// Where an accepted connection stands.
#[derive(Clone, Copy, PartialEq, Eq, Structural, Debug)]
pub enum Connection {
    /// The handshake is under way.
    Handshaking,
    /// The handshake succeeded; the negotiated protocol is yet to be read.
    Negotiated,
    /// Requests are served in this mode, and in no other, until the end.
    Serving(Protocol),
    /// The stream ended or broke while serving.
    Closed,
    /// The handshake or the negotiation went wrong.
    Failed,
}

/// What happened to a connection.
#[derive(Clone, Copy)]
pub enum Event<'a> {
    /// The handshake completed.
    HandshakeDone,
    /// The handshake ended in an error.
    HandshakeFailed,
    /// The negotiated protocol was read from the session: the identifier
    /// the peer agreed to, or nothing.
    Negotiation(Option<&'a str>),
    /// The peer closed the stream.
    StreamEnded,
    /// Reading or writing the stream failed for good.
    IoFailed,
}

/// What the caller does next.
#[derive(Clone, Copy, PartialEq, Eq, Structural, Debug)]
pub enum Action {
    /// Read the negotiated protocol and report it.
    ReadProtocol,
    /// Hand the stream to an HTTP server in this one mode.
    Serve(Protocol),
    /// Give the connection up; every other connection goes on.
    Close,
    /// Stop the process: the handshake reported a protocol that this
    /// server never advertised, which no peer can bring about.
    Abort,
    /// Nothing: the event does not concern a connection in this state.
    Ignore,
}

impl Connection {
    /// Whether nothing can happen to the connection any more.
    pub open spec fn terminal(self) -> bool {
        self is Closed || self is Failed
    }

    /// Whether nothing can happen to the connection any more.
    pub fn is_terminal(self) -> (t: bool)
        ensures
            t == self.terminal(),
    {
        match self {
            Connection::Closed => true,
            Connection::Failed => true,
            _ => false,
        }
    }
}

/// The state in which every accepted connection starts.
pub fn accepted() -> (state: Connection)
    ensures
        state == Connection::Handshaking,
{
    Connection::Handshaking
}

/// The state after `event`.
pub open spec fn next_state(state: Connection, event: Event) -> Connection {
    match (state, event) {
        (Connection::Handshaking, Event::HandshakeDone) => Connection::Negotiated,
        (Connection::Handshaking, Event::HandshakeFailed) => Connection::Failed,
        (Connection::Negotiated, Event::Negotiation(negotiated)) => match selected(negotiated) {
            Some(mode) => Connection::Serving(mode),
            None => Connection::Failed,
        },
        (Connection::Serving(_), Event::StreamEnded) => Connection::Closed,
        (Connection::Serving(_), Event::IoFailed) => Connection::Closed,
        _ => state,
    }
}

/// What `event` asks of the caller.
pub open spec fn action_for(state: Connection, event: Event) -> Action {
    match (state, event) {
        (Connection::Handshaking, Event::HandshakeDone) => Action::ReadProtocol,
        (Connection::Handshaking, Event::HandshakeFailed) => Action::Close,
        (Connection::Negotiated, Event::Negotiation(negotiated)) => match selected(negotiated) {
            Some(mode) => Action::Serve(mode),
            None => Action::Abort,
        },
        (Connection::Serving(_), Event::StreamEnded) => Action::Close,
        (Connection::Serving(_), Event::IoFailed) => Action::Close,
        _ => Action::Ignore,
    }
}

/// Moves a connection on by one event.
pub fn step(state: Connection, event: Event) -> (moved: (Connection, Action))
    ensures
        moved.0 == next_state(state, event),
        moved.1 == action_for(state, event),
{
    match state {
        Connection::Handshaking => match event {
            Event::HandshakeDone => (Connection::Negotiated, Action::ReadProtocol),
            Event::HandshakeFailed => (Connection::Failed, Action::Close),
            _ => (state, Action::Ignore),
        },
        Connection::Negotiated => match event {
            Event::Negotiation(negotiated) => match try_select_protocol(negotiated) {
                Some(mode) => (Connection::Serving(mode), Action::Serve(mode)),
                None => (Connection::Failed, Action::Abort),
            },
            _ => (state, Action::Ignore),
        },
        Connection::Serving(_) => match event {
            Event::StreamEnded => (Connection::Closed, Action::Close),
            Event::IoFailed => (Connection::Closed, Action::Close),
            _ => (state, Action::Ignore),
        },
        Connection::Closed => (state, Action::Ignore),
        Connection::Failed => (state, Action::Ignore),
    }
}

/// Runs the work of one connection if its handshake succeeded. The work
/// `f` is started on a connection in the state that follows the handshake,
/// [`Connection::Negotiated`], and its result is handed back; after a
/// failed handshake `f` is not run and the failure is passed on untouched.
pub fn with_tls_server<E, R, F: FnOnce(Connection) -> R>(handshake: Result<(), E>, f: F) -> (r:
    Result<R, E>)
    requires
        handshake is Ok ==> f.requires((Connection::Negotiated,)),
    ensures
        match handshake {
            Ok(_) => r matches Ok(done) && f.ensures((Connection::Negotiated,), done),
            Err(e) => r == Err::<R, E>(e),
        },
{
    match handshake {
        Ok(_) => {
            let (state, _) = step(accepted(), Event::HandshakeDone);
            Ok(f(state))
        },
        Err(e) => {
            Err(e)
        },
    }
}

/// The state after `events` in order.
pub open spec fn state_after(state: Connection, events: Seq<Event>) -> Connection
    decreases events.len(),
{
    if events.len() == 0 {
        state
    } else {
        next_state(state_after(state, events.drop_last()), events.last())
    }
}

/// A peer that supports only HTTP/1.1, and one that does not negotiate at
/// all, are both served HTTP/1.1; a peer that agreed to HTTP/2 is served
/// HTTP/2.
pub proof fn lemma_selection(negotiated: Option<&str>)
    ensures
        negotiated is None ==> selected(negotiated) == Some(Protocol::Http1),
        negotiated matches Some(id) ==> (id@ == "http/1.1"@ ==> selected(negotiated) == Some(
            Protocol::Http1,
        )),
        negotiated matches Some(id) ==> (id@ == "h2"@ ==> selected(negotiated) == Some(
            Protocol::Http2,
        )),
        selected(negotiated) matches Some(mode) ==> preference().contains(mode),
{
    reveal_strlit("h2");
    reveal_strlit("http/1.1");
    assert("h2"@.len() != "http/1.1"@.len());
}

/// Closed and failed connections stay as they are, and ask for nothing.
pub proof fn lemma_terminal_is_final(state: Connection, event: Event)
    requires
        state.terminal(),
    ensures
        next_state(state, event) == state,
        action_for(state, event) == Action::Ignore,
{
}

/// Once a connection is served in a mode, whatever happens it is served
/// in that mode or closed: the mode never changes.
pub proof fn lemma_mode_is_pinned(mode: Protocol, events: Seq<Event>)
    ensures
        state_after(Connection::Serving(mode), events) == Connection::Serving(mode) || state_after(
            Connection::Serving(mode),
            events,
        ) == Connection::Closed,
    decreases events.len(),
{
    if events.len() > 0 {
        lemma_mode_is_pinned(mode, events.drop_last());
    }
}

/// A connection is served only in the mode selected from what its
/// handshake negotiated, and only a negotiation outside the advertised set
/// aborts.
pub proof fn lemma_serving_follows_negotiation(state: Connection, event: Event)
    ensures
        action_for(state, event) matches Action::Serve(mode) ==> (state == Connection::Negotiated
            && next_state(state, event) == Connection::Serving(mode) && (event matches Event::Negotiation(
            negotiated,
        ) && selected(negotiated) == Some(mode))),
        action_for(state, event) == Action::Abort ==> (state == Connection::Negotiated && (
        event matches Event::Negotiation(negotiated) && selected(negotiated) is None)),
        next_state(state, event) matches Connection::Serving(mode) ==> state == Connection::Serving(
            mode,
        ) || action_for(state, event) == Action::Serve(mode),
{
}

} // verus!
