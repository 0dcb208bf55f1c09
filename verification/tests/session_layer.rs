//! Scenario tests for the session layer, driven over the in-memory
//! transport: flag building, the handshake in all its outcomes, options
//! negotiation, the idempotent end, sequential dispatch, and the listener
//! handoff.

use cql_session::auth::{Authenticator, NoneAuthenticator, PasswordAuthenticator};
use cql_session::body::{parse_auth_scheme, parse_supported};
use cql_session::client::CDRS;
use cql_session::error::Error;
use cql_session::memory::InMemoryTransport;
use cql_session::protocol::{
    request_flags, BatchType, Compression, Consistency, Flag, Frame, Opcode, Query, QueryBatch,
    QueryFlags, QueryParams, Request, SimpleServerEvent,
};
use cql_session::session::Session;

fn frame(opcode: Opcode, body: Vec<u8>) -> Frame {
    Frame { opcode, body }
}

/// A protocol `[string]`: 16-bit big-endian length, then the bytes.
fn string_body(s: &str) -> Vec<u8> {
    let bytes = s.as_bytes();
    let mut out = vec![(bytes.len() >> 8) as u8, (bytes.len() & 0xff) as u8];
    out.extend_from_slice(bytes);
    out
}

/// A SUPPORTED body: a `[string multimap]` from the given pairs.
fn supported_body(pairs: &[(&str, &[&str])]) -> Vec<u8> {
    let mut out = vec![(pairs.len() >> 8) as u8, (pairs.len() & 0xff) as u8];
    for (key, values) in pairs {
        out.extend_from_slice(&string_body(key));
        out.push((values.len() >> 8) as u8);
        out.push((values.len() & 0xff) as u8);
        for v in *values {
            out.extend_from_slice(&string_body(v));
        }
    }
    out
}

fn plain_params() -> QueryParams {
    QueryParams {
        consistency: Consistency::One,
        values: Vec::new(),
        with_names: None,
        page_size: None,
        paging_state: None,
        serial_consistency: None,
        timestamp: None,
    }
}

const PASSWORD_SCHEME: &str = "org.apache.cassandra.auth.PasswordAuthenticator";

#[test]
fn flags_all_four_combinations() {
    assert_eq!(request_flags(false, false), vec![]);
    assert_eq!(request_flags(true, false), vec![Flag::Tracing]);
    assert_eq!(request_flags(false, true), vec![Flag::Warning]);
    assert_eq!(request_flags(true, true), vec![Flag::Tracing, Flag::Warning]);
}

#[test]
fn compression_wire_names() {
    assert_eq!(Compression::Uncompressed.as_str(), "");
    assert_eq!(Compression::Lz4.as_str(), "lz4");
    assert_eq!(Compression::Snappy.as_str(), "snappy");
}

#[test]
fn authenticator_names_and_tokens() {
    assert_eq!(NoneAuthenticator.get_cassandra_name(), None);
    assert_eq!(NoneAuthenticator.get_auth_token(), vec![0u8]);
    let pw = PasswordAuthenticator::new("user".to_string(), "pass".to_string());
    assert_eq!(pw.get_cassandra_name(), Some(PASSWORD_SCHEME.to_string()));
    assert_eq!(pw.get_auth_token(), b"\0user\0pass".to_vec());
}

#[test]
fn ready_handshake_starts_without_auth_response() {
    let transport = InMemoryTransport::new(vec![frame(Opcode::Ready, Vec::new())]);
    let cdrs = CDRS::new(transport, NoneAuthenticator);
    let session = cdrs.start(Compression::Lz4).ok().expect("READY must start the session");
    assert!(session.started);
    assert_eq!(session.compressor, Compression::Lz4);
    assert_eq!(
        session.cdrs.transport.sent_so_far(),
        &vec![Request::Startup { compression: Compression::Lz4 }]
    );
}

#[test]
fn authenticate_handshake_sends_exactly_one_token() {
    let transport = InMemoryTransport::new(vec![
        frame(Opcode::Authenticate, string_body(PASSWORD_SCHEME)),
        frame(Opcode::AuthSuccess, Vec::new()),
    ]);
    let pw = PasswordAuthenticator::new("user".to_string(), "pass".to_string());
    let cdrs = CDRS::new(transport, pw);
    let session = cdrs
        .start(Compression::Uncompressed)
        .ok()
        .expect("matching schemes must start the session");
    assert!(session.started);
    assert_eq!(
        session.cdrs.transport.sent_log,
        vec![
            Request::Startup { compression: Compression::Uncompressed },
            Request::AuthResponse { token: b"\0user\0pass".to_vec() },
        ]
    );
}

#[test]
fn transport_failure_after_the_token_still_shows_one_token_write() {
    let transport = InMemoryTransport::new(vec![
        frame(Opcode::Authenticate, string_body(PASSWORD_SCHEME)),
    ]);
    let pw = PasswordAuthenticator::new("u".to_string(), "p".to_string());
    let failed = CDRS::new(transport, pw).start(Compression::Uncompressed).err().unwrap();
    assert!(matches!(failed.error, Error::Transport { .. }));
    assert_eq!(failed.transport.sent_log.len(), 2);
    assert!(matches!(failed.transport.sent_log[1], Request::AuthResponse { .. }));
}

#[test]
fn authenticate_scheme_mismatch_fails_before_any_token() {
    let transport = InMemoryTransport::new(vec![
        frame(Opcode::Authenticate, string_body("com.example.OtherAuthenticator")),
        frame(Opcode::AuthSuccess, Vec::new()),
    ]);
    let pw = PasswordAuthenticator::new("user".to_string(), "pass".to_string());
    let failed = CDRS::new(transport, pw).start(Compression::Uncompressed).err().unwrap();
    match &failed.error {
        Error::AuthSchemeMismatch { server, client } => {
            assert_eq!(server, "com.example.OtherAuthenticator");
            assert_eq!(client, PASSWORD_SCHEME);
        },
        other => panic!("expected a scheme mismatch, got {:?}", other),
    }
    assert!(failed.error.configuration());
    assert_eq!(
        failed.transport.sent_log,
        vec![Request::Startup { compression: Compression::Uncompressed }]
    );
}

#[test]
fn authenticate_without_any_authenticator_fails_before_any_token() {
    let transport = InMemoryTransport::new(vec![
        frame(Opcode::Authenticate, string_body("X")),
        frame(Opcode::AuthSuccess, Vec::new()),
    ]);
    let failed = CDRS::new(transport, NoneAuthenticator).start(Compression::Snappy).err().unwrap();
    assert!(matches!(failed.error, Error::NoAuthenticator));
    assert!(failed.error.configuration());
    assert_eq!(
        failed.transport.sent_log,
        vec![Request::Startup { compression: Compression::Snappy }]
    );
}

#[test]
fn authenticate_without_scheme_in_body_is_a_configuration_error() {
    let transport = InMemoryTransport::new(vec![frame(Opcode::Authenticate, Vec::new())]);
    let pw = PasswordAuthenticator::new("user".to_string(), "pass".to_string());
    let failed = CDRS::new(transport, pw).start(Compression::Uncompressed).err().unwrap();
    assert!(matches!(failed.error, Error::MissingAuthScheme));
    assert!(failed.error.configuration());
    assert_eq!(failed.transport.sent_log.len(), 1);
}

#[test]
fn unexpected_startup_reply_aborts_the_handshake() {
    let transport = InMemoryTransport::new(vec![frame(Opcode::Event, Vec::new())]);
    let failed =
        CDRS::new(transport, NoneAuthenticator).start(Compression::Uncompressed).err().unwrap();
    assert!(matches!(failed.error, Error::UnexpectedStartupReply { got: Opcode::Event }));
    assert!(!failed.error.configuration());
}

#[test]
fn negotiate_options_round_trip() {
    let body = supported_body(&[
        ("CQL_VERSION", &["3.0.0", "3.4.4"]),
        ("COMPRESSION", &["lz4", "snappy"]),
    ]);
    let transport = InMemoryTransport::new(vec![frame(Opcode::Supported, body)]);
    let mut cdrs = CDRS::new(transport, NoneAuthenticator);
    let options = cdrs.get_options().expect("a well-formed SUPPORTED body must parse");
    assert_eq!(
        options,
        vec![
            ("CQL_VERSION".to_string(), vec!["3.0.0".to_string(), "3.4.4".to_string()]),
            ("COMPRESSION".to_string(), vec!["lz4".to_string(), "snappy".to_string()]),
        ]
    );
    assert_eq!(cdrs.transport.sent_log, vec![Request::Options]);
}

#[test]
fn negotiate_options_rejects_other_opcodes_and_writes_nothing_more() {
    let transport = InMemoryTransport::new(vec![frame(Opcode::Ready, Vec::new())]);
    let mut cdrs = CDRS::new(transport, NoneAuthenticator);
    let err = cdrs.get_options().err().unwrap();
    assert!(matches!(err, Error::ProtocolViolation { got: Opcode::Ready }));
    assert_eq!(cdrs.transport.sent_log, vec![Request::Options]);
}

#[test]
fn negotiate_options_rejects_a_malformed_body() {
    let transport = InMemoryTransport::new(vec![frame(Opcode::Supported, vec![0, 1, 0])]);
    let mut cdrs = CDRS::new(transport, NoneAuthenticator);
    let err = cdrs.get_options().err().unwrap();
    assert!(matches!(err, Error::ProtocolViolation { got: Opcode::Supported }));
}

fn started_session(script: Vec<Frame>) -> Session<NoneAuthenticator, InMemoryTransport> {
    let mut with_ready = vec![frame(Opcode::Ready, Vec::new())];
    with_ready.extend(script);
    let transport = InMemoryTransport::new(with_ready);
    CDRS::new(transport, NoneAuthenticator).start(Compression::Uncompressed).ok().unwrap()
}

#[test]
fn end_twice_closes_exactly_once() {
    let mut session = started_session(Vec::new());
    assert_eq!(session.end(), None);
    assert!(!session.started);
    assert_eq!(session.cdrs.transport.close_count, 1);
    assert!(session.cdrs.transport.shut);
    assert_eq!(session.end(), None);
    assert_eq!(session.cdrs.transport.close_count, 1);
}

#[test]
fn sequential_dispatch_pairs_nth_write_with_nth_read() {
    let mut session = started_session(vec![
        frame(Opcode::Result, vec![1]),
        frame(Opcode::Result, vec![2]),
        frame(Opcode::Result, vec![3]),
        frame(Opcode::Result, vec![4]),
    ]);
    let q = Query { query: "select * from emp".to_string(), params: plain_params() };
    let r1 = session.query(q.clone(), false, false).unwrap();
    let r2 = session.prepare("select * from emp".to_string(), true, false).unwrap();
    let r3 = session.execute(vec![9, 9], plain_params(), false, true).unwrap();
    let batch = QueryBatch {
        batch_type: BatchType::Logged,
        consistency: Consistency::Quorum,
        queries: vec!["update t set x = 1".to_string()],
    };
    let r4 = session.batch(batch.clone(), true, true).unwrap();
    assert_eq!((r1.body, r2.body, r3.body, r4.body), (vec![1], vec![2], vec![3], vec![4]));
    assert_eq!(
        session.cdrs.transport.sent_log,
        vec![
            Request::Startup { compression: Compression::Uncompressed },
            Request::Query { request: q, flags: QueryFlags { tracing: false, warnings: false } },
            Request::Prepare {
                query: "select * from emp".to_string(),
                flags: QueryFlags { tracing: true, warnings: false },
            },
            Request::Execute {
                id: vec![9, 9],
                params: plain_params(),
                flags: QueryFlags { tracing: false, warnings: true },
            },
            Request::Batch { batch, flags: QueryFlags { tracing: true, warnings: true } },
        ]
    );
}

#[test]
fn dispatch_on_an_exhausted_stream_is_a_transport_error() {
    let mut session = started_session(Vec::new());
    let err = session.prepare("select 1".to_string(), false, false).err().unwrap();
    assert!(matches!(err, Error::Transport { .. }));
    // the write still happened: one STARTUP, then the PREPARE
    assert_eq!(session.cdrs.transport.sent_log.len(), 2);
}

#[test]
fn listener_yields_events_in_order_and_never_ends_on_its_own() {
    let session = started_session(vec![
        frame(Opcode::Result, Vec::new()),
        frame(Opcode::Event, vec![10]),
        frame(Opcode::Event, vec![20]),
    ]);
    let mut listener = session
        .listen_for(vec![SimpleServerEvent::TopologyChange, SimpleServerEvent::StatusChange])
        .ok()
        .expect("a confirmed REGISTER must hand over the transport");
    // the session was consumed by value; only the listener owns the stream now
    assert_eq!(listener.next_event().unwrap().body, vec![10]);
    assert_eq!(listener.next_event().unwrap().body, vec![20]);
    assert!(matches!(listener.next_event(), Err(Error::Transport { .. })));
    assert!(listener.close().is_ok());
    assert_eq!(listener.transport.close_count, 1);
    assert_eq!(
        listener.transport.sent_log,
        vec![
            Request::Startup { compression: Compression::Uncompressed },
            Request::Register {
                events: vec![SimpleServerEvent::TopologyChange, SimpleServerEvent::StatusChange],
            },
        ]
    );
}

#[test]
fn listen_for_surfaces_a_missing_confirmation() {
    let session = started_session(Vec::new());
    let failed = session.listen_for(vec![SimpleServerEvent::SchemaChange]).err().unwrap();
    assert!(matches!(failed.error, Error::Transport { .. }));
}

#[test]
fn compressor_override_applies_to_later_requests_only() {
    let mut session = started_session(Vec::new());
    assert_eq!(session.compressor, Compression::Uncompressed);
    session.compressor(Compression::Snappy);
    assert_eq!(session.compressor, Compression::Snappy);
    assert!(session.started);
}

#[test]
fn auth_scheme_parsing_edges() {
    assert_eq!(parse_auth_scheme(&Vec::new()), None);
    assert_eq!(parse_auth_scheme(&vec![0]), None);
    assert_eq!(parse_auth_scheme(&vec![0, 3, b'a']), None);
    assert_eq!(parse_auth_scheme(&vec![0, 1, 0xff]), None);
    assert_eq!(parse_auth_scheme(&string_body("X")), Some("X".to_string()));
    assert_eq!(parse_auth_scheme(&string_body("")), Some(String::new()));
}

#[test]
fn supported_parsing_edges() {
    assert_eq!(parse_supported(&Vec::new()), None);
    assert_eq!(parse_supported(&vec![0, 0]), Some(Vec::new()));
    assert_eq!(parse_supported(&vec![0, 2]), None);
    let invalid_key = vec![0, 1, 0, 1, 0xff, 0, 0];
    assert_eq!(parse_supported(&invalid_key), None);
    let empty_list = supported_body(&[("K", &[])]);
    assert_eq!(parse_supported(&empty_list), Some(vec![("K".to_string(), Vec::new())]));
}

#[test]
fn error_classification() {
    assert!(Error::MissingAuthScheme.configuration());
    assert!(Error::NoAuthenticator.configuration());
    assert!(
        Error::AuthSchemeMismatch { server: "a".to_string(), client: "b".to_string() }
            .configuration()
    );
    assert!(!Error::Transport { message: "broken pipe".to_string() }.configuration());
    assert!(!Error::ProtocolDecode { message: "bad frame".to_string() }.configuration());
    assert!(!Error::ProtocolViolation { got: Opcode::Ready }.configuration());
    assert!(!Error::UnexpectedStartupReply { got: Opcode::Error }.configuration());
}
