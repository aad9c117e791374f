//! The transport layer as far as it decides anything: its errors, the
//! outcome of a handshake, and the authentication state of a connection.
//!
//! The sockets and the TLS sessions themselves live outside this library;
//! what reaches it are the events they produce.

use vstd::prelude::*;
use vstd::string::StringExecFns;
use crate::error::io_error_text;

verus! {

/// The application protocol token that both sides pin during the TLS
/// handshake, so that a client of another protocol is turned away early.
pub const ALPN_PROTOCOL: &'static str = "sentinel-v1";

/// The time, in seconds, that a node grants a peer to finish its handshake.
pub const HANDSHAKE_TIMEOUT_SECS: u64 = 10;

/// Why a connection attempt came to nothing.
#[derive(Debug)]
pub enum TransportError {
    /// The TLS layer failed.
    Tls(std::io::Error),
    /// The handshake was not done in time.
    HandshakeTimeout,
    /// The network failed below TLS.
    Network(String),
    /// The handshake was refused.
    HandshakeFailed,
}

pub type TransportResult<T> = Result<T, TransportError>;

impl TransportError {
    /// The error in words.
    pub fn message(&self) -> (text: String)
        ensures
            self is HandshakeTimeout ==> text@ == "Handshake timed out"@,
            self is HandshakeFailed ==> text@ == "Handshake failed"@,
            self matches TransportError::Network(why) ==> text@ == "Network error: "@ + why@,
            self is Tls ==> "TLS error: "@.is_prefix_of(text@),
    {
        match self {
            TransportError::Tls(e) => {
                let mut text = String::from_str("TLS error: ");
                text.append(io_error_text(e).as_str());
                assert("TLS error: "@.is_prefix_of(text@)) by {
                    assert(text@.subrange(0, "TLS error: "@.len() as int) =~= "TLS error: "@);
                }
                text
            },
            TransportError::HandshakeTimeout => String::from_str("Handshake timed out"),
            TransportError::Network(why) => {
                let mut text = String::from_str("Network error: ");
                text.append(why.as_str());
                text
            },
            TransportError::HandshakeFailed => String::from_str("Handshake failed"),
        }
    }
}

/// `rustls::Error`, carried through unopened.
#[verifier::external_type_specification]
#[verifier::external_body]
pub struct ExTlsError(rustls::Error);

/// Why a transport failed, with the TLS library's own account of it.
#[derive(Debug)]
pub enum SentinelTransportError {
    /// The socket failed.
    Io(std::io::Error),
    /// The TLS handshake failed.
    Tls(rustls::Error),
    /// The handshake was not done within this many seconds.
    Timeout(u64),
    /// The certificate cannot be used.
    InvalidCertificate(String),
}

/// How a handshake that was given a time limit ended.
#[derive(Debug)]
pub enum HandshakeEvent {
    /// The handshake finished: the stream is encrypted.
    Completed,
    /// The handshake failed inside the TLS layer.
    Failed(std::io::Error),
    /// The time limit ran out first.
    TimedOut,
}

/// What an attempt's handshake means for that attempt: only a completed
/// handshake yields a connection. There is no plaintext fallback.
pub fn handshake_outcome(event: HandshakeEvent) -> (r: TransportResult<()>)
    ensures
        match event {
            HandshakeEvent::Completed => r is Ok,
            HandshakeEvent::Failed(e) => r == Err::<(), TransportError>(TransportError::Tls(e)),
            HandshakeEvent::TimedOut => r == Err::<(), TransportError>(
                TransportError::HandshakeTimeout,
            ),
        },
{
    match event {
        HandshakeEvent::Completed => Ok(()),
        HandshakeEvent::Failed(e) => Err(TransportError::Tls(e)),
        HandshakeEvent::TimedOut => Err(TransportError::HandshakeTimeout),
    }
}

/// State of a connection whose peer has not said who it is.
pub struct Unauthenticated;

/// State of a connection whose peer is known.
pub struct Authenticated {
    pub user_id: String,
}

/// A transport together with its authentication state. The state is part
/// of the type: only an authenticated connection has a user.
pub struct Connection<T, S> {
    pub transport: T,
    pub state_data: S,
}

impl<T> Connection<T, Unauthenticated> {
    pub fn new(transport: T) -> (c: Self)
        ensures
            c.transport == transport,
    {
        Self { transport, state_data: Unauthenticated }
    }

    /// The same transport, now with a known user.
    pub fn into_authenticated(self, user_id: String) -> (c: Connection<T, Authenticated>)
        ensures
            c.transport == self.transport,
            c.state_data.user_id == user_id,
    {
        Connection { transport: self.transport, state_data: Authenticated { user_id } }
    }
}

impl<T> Connection<T, Authenticated> {
    pub fn user_id(&self) -> (id: &str)
        ensures
            id@ == self.state_data.user_id@,
    {
        self.state_data.user_id.as_str()
    }
}

} // verus!
