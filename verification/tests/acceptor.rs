use tide_acme::acceptor::{
    accept, acme_tls_alpn_name, bytes_eq, decide_accept, disambiguate, is_acme_alpn, AcceptAction,
    Accepted, AcceptOutcome, Shutdown, TlsConn,
};

#[test]
fn alpn_name_is_acme_tls_1() {
    assert_eq!(acme_tls_alpn_name(), b"acme-tls/1".to_vec());
}

#[test]
fn recognizes_the_reserved_protocol() {
    assert!(is_acme_alpn(b"acme-tls/1"));
    assert!(!is_acme_alpn(b"http/1.1"));
    assert!(!is_acme_alpn(b"h2"));
    assert!(!is_acme_alpn(b""));
    assert!(!is_acme_alpn(b"acme-tls/2"));
    assert!(!is_acme_alpn(b"acme-tls/11"));
}

#[test]
fn bytes_eq_compares_exactly() {
    assert!(bytes_eq(b"", b""));
    assert!(bytes_eq(b"abc", b"abc"));
    assert!(!bytes_eq(b"abc", b"abd"));
    assert!(!bytes_eq(b"abc", b"ab"));
}

#[test]
fn validation_handshake_is_consumed_with_clean_shutdown() {
    let conn = TlsConn { alpn: Some(b"acme-tls/1".to_vec()), data: Vec::new() };
    let outcome = disambiguate(conn);
    assert_eq!(outcome, AcceptOutcome::Validation(Shutdown::CloseNotify));
}

#[test]
fn validation_handshake_forwards_no_bytes() {
    // Even if application bytes were already buffered, a validation
    // connection yields no application connection at all.
    let conn = TlsConn { alpn: Some(b"acme-tls/1".to_vec()), data: b"stray".to_vec() };
    let outcome = disambiguate(conn);
    assert!(matches!(outcome, AcceptOutcome::Validation(Shutdown::CloseNotify)));
    let action = decide_accept(Some(b"acme-tls/1"));
    assert_eq!(action, AcceptAction::CloseValidation);
}

#[test]
fn http_connection_passes_through_with_same_bytes() {
    let payload = b"GET / HTTP/1.1\r\nHost: example.test\r\n\r\n".to_vec();
    let conn = TlsConn { alpn: Some(b"http/1.1".to_vec()), data: payload.clone() };
    match disambiguate(conn) {
        AcceptOutcome::App(delivered) => {
            assert_eq!(delivered.alpn, Some(b"http/1.1".to_vec()));
            assert_eq!(delivered.data, payload);
        }
        other => panic!("expected a delivered connection, got {:?}", other),
    }
}

#[test]
fn connection_without_alpn_passes_through() {
    let conn = TlsConn { alpn: None, data: b"hello".to_vec() };
    match disambiguate(conn) {
        AcceptOutcome::App(delivered) => {
            assert_eq!(delivered.alpn, None);
            assert_eq!(delivered.data, b"hello".to_vec());
        }
        other => panic!("expected a delivered connection, got {:?}", other),
    }
}

#[test]
fn handshake_failure_is_surfaced_unchanged() {
    let r = accept(Err(String::from("handshake refused")));
    assert_eq!(r, Accepted::Refused(String::from("handshake refused")));
}

#[test]
fn accept_consumes_validation_and_delivers_the_rest() {
    let validation = TlsConn { alpn: Some(b"acme-tls/1".to_vec()), data: Vec::new() };
    assert_eq!(accept(Ok(validation)), Accepted::Consumed(Shutdown::CloseNotify));

    let ordinary = TlsConn { alpn: Some(b"h2".to_vec()), data: b"x".to_vec() };
    match accept(Ok(ordinary)) {
        Accepted::Established(conn) => {
            assert_eq!(conn.alpn, Some(b"h2".to_vec()));
            assert_eq!(conn.data, b"x".to_vec());
        }
        other => panic!("expected an established connection, got {:?}", other),
    }
}

#[test]
fn decide_accept_matches_the_protocol_only() {
    assert_eq!(decide_accept(Some(b"acme-tls/1")), AcceptAction::CloseValidation);
    assert_eq!(decide_accept(Some(b"http/1.1")), AcceptAction::Deliver);
    assert_eq!(decide_accept(None), AcceptAction::Deliver);
}
