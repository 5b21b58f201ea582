//! Disambiguation of inbound TLS connections.
//!
//! During an ACME tls-alpn-01 validation, the certificate authority opens
//! an ordinary TLS connection but negotiates the reserved ALPN protocol
//! `acme-tls/1`. Such a handshake *is* the challenge response: once it
//! completes, the connection must be closed gracefully and never reach the
//! application. Every other connection is an ordinary client and is handed
//! on untouched. The decision is made from the negotiated ALPN protocol
//! alone, before any application data is read or written.

use vstd::prelude::*;

verus! {

/// The reserved ALPN protocol identifier `"acme-tls/1"` (RFC 8737) as a
/// byte sequence.
pub open spec fn acme_tls_alpn_id() -> Seq<u8> {
    seq![97u8, 99u8, 109u8, 101u8, 45u8, 116u8, 108u8, 115u8, 47u8, 49u8]
}

/// The reserved ALPN protocol name `"acme-tls/1"`, as the byte string a
/// TLS stack reports it.
pub fn acme_tls_alpn_name() -> (r: Vec<u8>)
    ensures
        r@ == acme_tls_alpn_id(),
{
    let mut v: Vec<u8> = Vec::new();
    v.push(97);
    v.push(99);
    v.push(109);
    v.push(101);
    v.push(45);
    v.push(116);
    v.push(108);
    v.push(115);
    v.push(47);
    v.push(49);
    proof {
        assert(v@ =~= acme_tls_alpn_id());
    }
    v
}

/// Byte-for-byte equality of two byte strings.
pub fn bytes_eq(a: &[u8], b: &[u8]) -> (r: bool)
    ensures
        r == (a@ == b@),
{
    if a.len() != b.len() {
        return false;
    }
    let n = a.len();
    let mut i: usize = 0;
    while i < n
        invariant
            n == a@.len(),
            n == b@.len(),
            i <= n,
            forall|j: int| 0 <= j < i ==> a@[j] == b@[j],
        decreases n - i,
    {
        if a[i] != b[i] {
            return false;
        }
        i += 1;
    }
    proof {
        assert(a@ =~= b@);
    }
    true
}

/// True exactly when `proto` is the reserved ACME validation protocol.
pub fn is_acme_alpn(proto: &[u8]) -> (r: bool)
    ensures
        r == (proto@ == acme_tls_alpn_id()),
{
    let name = acme_tls_alpn_name();
    bytes_eq(proto, name.as_slice())
}

/// How a TLS connection is shut down: a graceful close_notify alert, or an
/// abrupt transport-level reset.
#[derive(Clone, Copy, PartialEq, Eq, Structural, Debug)]
pub enum Shutdown {
    CloseNotify,
    Reset,
}

/// An established server-side TLS connection, as the accept path sees it:
/// the ALPN protocol the handshake negotiated (if any), and the
/// application bytes already buffered for the stream.
#[derive(PartialEq, Eq, Debug)]
pub struct TlsConn {
    pub alpn: Option<Vec<u8>>,
    pub data: Vec<u8>,
}

/// A validation connection is one whose handshake negotiated the reserved
/// ACME protocol. Connections without ALPN are never validation requests.
pub open spec fn is_validation_conn(c: TlsConn) -> bool {
    match c.alpn {
        Some(p) => p@ == acme_tls_alpn_id(),
        None => false,
    }
}

/// What becomes of an established connection: consumed as a validation
/// handshake (with the way its socket is closed), or handed to the
/// application.
#[derive(PartialEq, Eq, Debug)]
pub enum AcceptOutcome {
    /// No application connection: the handshake itself answered an ACME
    /// challenge, and the socket is closed as recorded.
    Validation(Shutdown),
    /// An ordinary connection, to be served by the application.
    App(TlsConn),
}

/// The disambiguation rule: a validation handshake is consumed and its
/// socket closed with close_notify; anything else passes through whole.
pub open spec fn spec_disambiguate(c: TlsConn) -> AcceptOutcome {
    if is_validation_conn(c) {
        AcceptOutcome::Validation(Shutdown::CloseNotify)
    } else {
        AcceptOutcome::App(c)
    }
}

/// Decide the fate of an established connection from its negotiated ALPN
/// protocol alone.
pub fn disambiguate(conn: TlsConn) -> (r: AcceptOutcome)
    ensures
        r == spec_disambiguate(conn),
{
    let validation = match &conn.alpn {
        Some(p) => is_acme_alpn(p.as_slice()),
        None => false,
    };
    if validation {
        AcceptOutcome::Validation(Shutdown::CloseNotify)
    } else {
        AcceptOutcome::App(conn)
    }
}

/// Every connection that negotiated the reserved ACME validation protocol
/// is consumed: no application connection is produced, and the socket is
/// closed with a clean close_notify, never an abrupt reset.
pub proof fn lemma_validation_consumed(c: TlsConn)
    requires
        is_validation_conn(c),
    ensures
        spec_disambiguate(c) == AcceptOutcome::Validation(Shutdown::CloseNotify),
{
}

/// Every connection that negotiated any other protocol, or none, is handed
/// to the application exactly as it was established: same negotiated
/// protocol, same buffered bytes.
pub proof fn lemma_passthrough_unchanged(c: TlsConn)
    requires
        !is_validation_conn(c),
    ensures
        spec_disambiguate(c) == AcceptOutcome::App(c),
        (spec_disambiguate(c) matches AcceptOutcome::App(d) && d.data == c.data && d.alpn
            == c.alpn),
{
}

/// The result of one call of the accept path: the handshake failed and the
/// error is reported to the caller, or a validation handshake was consumed,
/// or an application connection was established.
#[derive(PartialEq, Eq, Debug)]
pub enum Accepted {
    /// The TLS handshake failed; the error is surfaced to the caller's
    /// accept loop exactly as a plain TLS acceptor would surface it.
    Refused(String),
    /// A validation handshake was answered and the socket closed.
    Consumed(Shutdown),
    /// An ordinary connection, established and untouched.
    Established(TlsConn),
}

/// The full accept contract over the handshake result.
pub open spec fn spec_accept(hs: Result<TlsConn, String>) -> Accepted {
    match hs {
        Err(e) => Accepted::Refused(e),
        Ok(c) => {
            if is_validation_conn(c) {
                Accepted::Consumed(Shutdown::CloseNotify)
            } else {
                Accepted::Established(c)
            }
        },
    }
}

/// Accept one connection, given the outcome of its TLS handshake: pass a
/// handshake failure through unchanged, consume a validation handshake,
/// and deliver every other connection whole.
pub fn accept(hs: Result<TlsConn, String>) -> (r: Accepted)
    ensures
        r == spec_accept(hs),
{
    match hs {
        Err(e) => Accepted::Refused(e),
        Ok(conn) => match disambiguate(conn) {
            AcceptOutcome::Validation(s) => Accepted::Consumed(s),
            AcceptOutcome::App(c) => Accepted::Established(c),
        },
    }
}

/// The action an accept loop takes for a connection, decided from the raw
/// negotiated ALPN protocol.
#[derive(Clone, Copy, PartialEq, Eq, Structural, Debug)]
pub enum AcceptAction {
    /// Log the validation request, close the stream gracefully, and report
    /// that no application connection was produced.
    CloseValidation,
    /// Hand the stream to the application.
    Deliver,
}

/// Decide the accept action from the negotiated ALPN protocol bytes, as a
/// TLS session reports them.
pub fn decide_accept(alpn: Option<&[u8]>) -> (r: AcceptAction)
    ensures
        (match alpn {
            Some(p) => r == (if p@ == acme_tls_alpn_id() {
                AcceptAction::CloseValidation
            } else {
                AcceptAction::Deliver
            }),
            None => r == AcceptAction::Deliver,
        }),
{
    match alpn {
        Some(p) => {
            if is_acme_alpn(p) {
                AcceptAction::CloseValidation
            } else {
                AcceptAction::Deliver
            }
        },
        None => AcceptAction::Deliver,
    }
}

} // verus!
