//! Serve HTTP and HTTPS on a single port.
//!
//! A connection is classified by peeking at its first byte: the fixed TLS
//! handshake record marker means the stream is handed to a secure-handshake
//! acceptor, any other byte means the stream is passed through unchanged as
//! plaintext. The classification is attached to every request as a
//! [`Protocol`] tag, and the [`UpgradeHttp`] service reads that tag to
//! redirect plaintext requests to their HTTPS equivalent.
//!
//! The connection acceptor is an explicit state machine
//! ([`AcceptorMachine`]): the surrounding server performs the actual peek and
//! the TLS negotiation and feeds their outcomes in, while every decision —
//! classification, state transitions, redirect synthesis — is made here and
//! carries a verified contract.

mod dual_protocol;
mod either;
mod upgrade_http;

pub use dual_protocol::{
    classify, AcceptStep, AcceptorError, AcceptorMachine, AcceptorState, DualProtocolAcceptor,
    DualProtocolService, DualProtocolServiceBuilder, HandshakeOutcome, PeekOutcome, Protocol,
    ServerExt, ServiceServe, TLS_HANDSHAKE_BYTE,
};
pub use either::Either;
pub use upgrade_http::{
    extract_authority, upgrade_response, HeaderEntry, RequestInfo, UpgradeDecision, UpgradeHttp,
    UpgradeHttpFuture, UpgradeHttpLayer, UpgradeResponse, BAD_REQUEST, MOVED_PERMANENTLY,
};
