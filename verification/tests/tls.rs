use echo_service::tls::accepted;
use echo_service::tls::advertised;
use echo_service::tls::alpn_list;
use echo_service::tls::select_protocol;
use echo_service::tls::server_setup;
use echo_service::tls::step;
use echo_service::tls::try_select_protocol;
use echo_service::tls::Action;
use echo_service::tls::Connection;
use echo_service::tls::Endpoint;
use echo_service::tls::Event;
use echo_service::tls::Preset;
use echo_service::tls::Protocol;
use echo_service::tls::Transport;

#[test]
fn http2_is_advertised_before_http1() {
    assert_eq!(advertised(), vec![Protocol::Http2, Protocol::Http1]);
    assert_eq!(alpn_list(), vec!["h2", "http/1.1"]);
}

#[test]
fn advertised_identifiers_hold_no_nul() {
    for id in alpn_list() {
        assert!(!id.contains('\0'));
        assert!(!id.is_empty());
    }
}

#[test]
fn identifiers_are_the_registered_ones() {
    assert_eq!(Protocol::Http1.alpn_id(), "http/1.1");
    assert_eq!(Protocol::Http2.alpn_id(), "h2");
}

#[test]
fn setup_is_a_stream_server_with_the_default_preset() {
    let setup = server_setup();
    assert_eq!(setup.endpoint, Endpoint::Server);
    assert_eq!(setup.transport, Transport::Stream);
    assert_eq!(setup.preset, Preset::Default);
    assert_eq!(setup.alpn, vec![Protocol::Http2, Protocol::Http1]);
}

#[test]
fn peer_supporting_only_http1_is_served_http1() {
    assert_eq!(try_select_protocol(Some("http/1.1")), Some(Protocol::Http1));
    assert_eq!(select_protocol(Some("http/1.1")), Protocol::Http1);

    let (state, action) = step(accepted(), Event::HandshakeDone);
    assert_eq!((state, action), (Connection::Negotiated, Action::ReadProtocol));
    let (state, action) = step(state, Event::Negotiation(Some("http/1.1")));
    assert_eq!(state, Connection::Serving(Protocol::Http1));
    assert_eq!(action, Action::Serve(Protocol::Http1));
}

#[test]
fn peer_without_alpn_falls_back_to_http1() {
    assert_eq!(try_select_protocol(None), Some(Protocol::Http1));
    assert_eq!(select_protocol(None), Protocol::Http1);

    let (state, _) = step(accepted(), Event::HandshakeDone);
    let (state, action) = step(state, Event::Negotiation(None));
    assert_eq!(state, Connection::Serving(Protocol::Http1));
    assert_eq!(action, Action::Serve(Protocol::Http1));
}

#[test]
fn peer_agreeing_to_http2_is_served_http2() {
    assert_eq!(try_select_protocol(Some("h2")), Some(Protocol::Http2));
    assert_eq!(select_protocol(Some("h2")), Protocol::Http2);
    let (state, _) = step(accepted(), Event::HandshakeDone);
    let (state, action) = step(state, Event::Negotiation(Some("h2")));
    assert_eq!(state, Connection::Serving(Protocol::Http2));
    assert_eq!(action, Action::Serve(Protocol::Http2));
}

#[test]
fn protocol_outside_the_advertised_set_selects_nothing() {
    assert_eq!(try_select_protocol(Some("spdy/3")), None);
    assert_eq!(try_select_protocol(Some("")), None);
    assert_eq!(try_select_protocol(Some("H2")), None);
    assert_eq!(try_select_protocol(Some("h2\0")), None);
    assert_eq!(try_select_protocol(Some("http/1.0")), None);
}

#[test]
fn protocol_outside_the_advertised_set_aborts() {
    let (state, _) = step(accepted(), Event::HandshakeDone);
    let (state, action) = step(state, Event::Negotiation(Some("spdy/3")));
    assert_eq!(state, Connection::Failed);
    assert_eq!(action, Action::Abort);
}

#[test]
fn connection_starts_handshaking() {
    assert_eq!(accepted(), Connection::Handshaking);
    assert!(!accepted().is_terminal());
}

#[test]
fn failed_handshake_gives_the_connection_up() {
    let (state, action) = step(accepted(), Event::HandshakeFailed);
    assert_eq!(state, Connection::Failed);
    assert_eq!(action, Action::Close);
    assert!(state.is_terminal());
}

#[test]
fn serving_ends_with_the_stream() {
    let serving = Connection::Serving(Protocol::Http2);
    assert_eq!(step(serving, Event::StreamEnded), (Connection::Closed, Action::Close));
    assert_eq!(step(serving, Event::IoFailed), (Connection::Closed, Action::Close));
    assert!(Connection::Closed.is_terminal());
    assert!(!serving.is_terminal());
}

#[test]
fn mode_is_pinned_while_serving() {
    let serving = Connection::Serving(Protocol::Http1);
    for event in [
        Event::HandshakeDone,
        Event::HandshakeFailed,
        Event::Negotiation(Some("h2")),
        Event::Negotiation(None),
    ] {
        assert_eq!(step(serving, event), (serving, Action::Ignore));
    }
}

#[test]
fn terminal_states_ignore_everything() {
    for state in [Connection::Closed, Connection::Failed] {
        for event in [
            Event::HandshakeDone,
            Event::HandshakeFailed,
            Event::Negotiation(Some("h2")),
            Event::StreamEnded,
            Event::IoFailed,
        ] {
            assert_eq!(step(state, event), (state, Action::Ignore));
        }
    }
}

#[test]
fn events_out_of_turn_are_ignored() {
    assert_eq!(
        step(Connection::Handshaking, Event::Negotiation(Some("h2"))),
        (Connection::Handshaking, Action::Ignore)
    );
    assert_eq!(
        step(Connection::Handshaking, Event::StreamEnded),
        (Connection::Handshaking, Action::Ignore)
    );
    assert_eq!(
        step(Connection::Negotiated, Event::HandshakeDone),
        (Connection::Negotiated, Action::Ignore)
    );
    assert_eq!(
        step(Connection::Negotiated, Event::IoFailed),
        (Connection::Negotiated, Action::Ignore)
    );
}

#[test]
fn work_runs_after_a_successful_handshake() {
    let handshake: Result<(), String> = Ok(());
    let result = echo_service::tls::with_tls_server(handshake, |state| (state, 42));
    assert_eq!(result, Ok((Connection::Negotiated, 42)));
}

#[test]
fn failed_handshake_runs_no_work() {
    let ran = std::cell::Cell::new(false);
    let handshake: Result<(), String> = Err(String::from("bad record mac"));
    let result = echo_service::tls::with_tls_server(handshake, |_state| ran.set(true));
    assert_eq!(result, Err(String::from("bad record mac")));
    assert!(!ran.get());
}
