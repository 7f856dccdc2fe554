//! Dual-protocol connection classification.
//!
//! A freshly accepted connection is classified by its first byte, observed
//! with a non-consuming peek: the TLS handshake record marker selects the
//! secure branch, anything else is plaintext. [`AcceptorMachine`] is the
//! state machine that makes every decision of that process; the surrounding
//! server owns the socket, performs the peek and the TLS negotiation, and
//! feeds their outcomes in as [`PeekOutcome`] and [`HandshakeOutcome`].

use vstd::prelude::*;

use crate::upgrade_http::{RequestInfo, UpgradeHttp};

verus! {

/// The first byte of every TLS connection: the content type of a handshake
/// record.
pub const TLS_HANDSHAKE_BYTE: u8 = 0x16;

/// The protocol used by a connection. Attached to every request derived from
/// that connection, so downstream consumers need not reclassify.
#[derive(Clone, Copy, Debug, Eq, Hash, PartialEq, Structural)]
pub enum Protocol {
    /// This connection is encrypted with TLS.
    Tls,
    /// This connection is unencrypted.
    Plain,
}

/// The classification a single peeked byte dictates.
pub open spec fn spec_classify(byte: u8) -> Protocol {
    if byte == TLS_HANDSHAKE_BYTE {
        Protocol::Tls
    } else {
        Protocol::Plain
    }
}

/// Classify a connection by the first byte it sent.
pub fn classify(byte: u8) -> (protocol: Protocol)
    ensures
        protocol == spec_classify(byte),
        protocol is Tls <==> byte == TLS_HANDSHAKE_BYTE,
{
    if byte == TLS_HANDSHAKE_BYTE {
        Protocol::Tls
    } else {
        Protocol::Plain
    }
}

/// What a single non-consuming peek for one byte reported.
#[derive(Clone, Copy, Debug)]
pub enum PeekOutcome {
    /// At least one byte is buffered; this is the first of them. The byte
    /// stays in the stream for the next real read.
    Ready(u8),
    /// The peek reported zero bytes available: the connection was closed
    /// before any byte arrived.
    Closed,
    /// The peek itself failed with a transport error.
    Failed,
    /// No data is available yet; the caller must wait for readiness and ask
    /// again.
    Pending,
}

/// What one poll of the delegated secure handshake reported.
#[derive(Clone, Copy, Debug)]
pub enum HandshakeOutcome {
    /// The handshake completed; the connection is now a secure stream.
    Done,
    /// The handshake failed.
    Failed,
    /// The handshake needs more round trips; the caller must wait for
    /// readiness and ask again.
    Pending,
}

/// Why classification failed. Terminal and non-retriable at this layer: the
/// outer server closes and reports the connection.
#[derive(Clone, Copy, Debug, Eq, PartialEq, Structural)]
pub enum AcceptorError {
    /// The connection was closed before its first byte arrived.
    UnexpectedEof,
    /// The peek failed with a transport error.
    PeekFailed,
    /// The delegated secure handshake failed.
    HandshakeFailed,
}

/// State of classifying one connection. `Pending` carries the value that
/// will be handed onward (the service that is to process the connection);
/// the `Option` models "not yet consumed": it is `Some` exactly until the
/// peek succeeds, after which it is extracted and the state irrevocably
/// transitions.
#[derive(Debug)]
pub enum AcceptorState<S> {
    /// Initial state: still trying to determine whether the connection is
    /// TLS or plaintext.
    Peeking { pending: Option<S> },
    /// The first byte was the TLS marker; the delegated secure handshake is
    /// in progress.
    Handshaking,
    /// Terminal: the connection was classified (or classification failed)
    /// and the result has been handed out.
    Finished,
}

/// What one step of the acceptor tells its driver to do.
#[derive(Debug)]
pub enum AcceptStep<S> {
    /// Suspend; ask again when the transport signals readiness.
    Wait,
    /// The first byte is the TLS marker: hand the stream — its first byte
    /// still unconsumed — and this value to the secure-handshake acceptor.
    StartHandshake(S),
    /// The connection is plaintext: return the stream untouched together
    /// with this value, tagged [`Protocol::Plain`].
    AcceptPlain(S),
    /// The secure handshake completed: return the secure stream, tagged
    /// [`Protocol::Tls`].
    AcceptTls,
    /// Classification failed; surface the error to the outer server.
    Fail(AcceptorError),
}

/// Transition taken from the peeking state for a given peek outcome.
pub open spec fn spec_on_peek<S>(pending: S, outcome: PeekOutcome) -> (AcceptorState<S>, AcceptStep<
    S,
>) {
    match outcome {
        PeekOutcome::Ready(byte) => if spec_classify(byte) is Tls {
            (AcceptorState::Handshaking, AcceptStep::StartHandshake(pending))
        } else {
            (AcceptorState::Finished, AcceptStep::AcceptPlain(pending))
        },
        PeekOutcome::Closed => (
            AcceptorState::Finished,
            AcceptStep::Fail(AcceptorError::UnexpectedEof),
        ),
        PeekOutcome::Failed => (
            AcceptorState::Finished,
            AcceptStep::Fail(AcceptorError::PeekFailed),
        ),
        PeekOutcome::Pending => (
            AcceptorState::Peeking { pending: Some(pending) },
            AcceptStep::Wait,
        ),
    }
}

/// Transition taken from the handshaking state for a given handshake
/// outcome.
pub open spec fn spec_on_handshake<S>(outcome: HandshakeOutcome) -> (AcceptorState<S>, AcceptStep<
    S,
>) {
    match outcome {
        HandshakeOutcome::Done => (AcceptorState::Finished, AcceptStep::AcceptTls),
        HandshakeOutcome::Failed => (
            AcceptorState::Finished,
            AcceptStep::Fail(AcceptorError::HandshakeFailed),
        ),
        HandshakeOutcome::Pending => (AcceptorState::Handshaking, AcceptStep::Wait),
    }
}

/// The first byte alone decides a connection's fate. When it is the TLS
/// handshake marker the acceptor hands the stream to the secure handshake —
/// whose completion is what accepts the connection as TLS — and for every
/// other byte the connection is accepted as plaintext at once. Either way
/// the peek consumed nothing: the byte stays readable by the next consumer.
pub proof fn lemma_first_byte_decides<S>(pending: S, byte: u8)
    ensures
        spec_classify(byte) is Tls <==> byte == TLS_HANDSHAKE_BYTE,
        byte == TLS_HANDSHAKE_BYTE ==> spec_on_peek(pending, PeekOutcome::Ready(byte)) == (
            AcceptorState::<S>::Handshaking,
            AcceptStep::StartHandshake(pending),
        ),
        byte != TLS_HANDSHAKE_BYTE ==> spec_on_peek(pending, PeekOutcome::Ready(byte)) == (
            AcceptorState::<S>::Finished,
            AcceptStep::AcceptPlain(pending),
        ),
        spec_on_handshake::<S>(HandshakeOutcome::Done) == (
            AcceptorState::<S>::Finished,
            AcceptStep::<S>::AcceptTls,
        ),
{
}

/// A connection closed before any byte arrives fails classification with
/// the unexpected-end-of-stream error: the machine finishes at once, so it
/// neither waits nor returns a classified connection.
pub proof fn lemma_closed_fails<S>(pending: S)
    ensures
        spec_on_peek(pending, PeekOutcome::Closed) == (
            AcceptorState::<S>::Finished,
            AcceptStep::<S>::Fail(AcceptorError::UnexpectedEof),
        ),
{
}

/// The per-connection classification state machine.
///
/// Created in the peeking state with the value to hand onward. The driver
/// polls the transport and reports each outcome through [`Self::on_peek`]
/// and [`Self::on_handshake`]; once a step other than [`AcceptStep::Wait`]
/// comes back the machine is finished, and asking it again is a programming
/// error that the contracts rule out — a driver must fail fast instead.
#[derive(Debug)]
pub struct AcceptorMachine<S> {
    /// Current classification state.
    pub state: AcceptorState<S>,
}

impl<S> AcceptorMachine<S> {
    /// The machine's internal invariant: while peeking, the pending value
    /// has not been consumed.
    pub open spec fn wf(&self) -> bool {
        self.state is Peeking ==> self.state->pending is Some
    }

    /// Create a machine for one freshly accepted connection.
    pub fn new(pending: S) -> (machine: Self)
        ensures
            machine.wf(),
            machine.state is Peeking,
            machine.state->pending == Some(pending),
    {
        AcceptorMachine { state: AcceptorState::Peeking { pending: Some(pending) } }
    }

    /// Advance the machine with what the non-consuming peek reported.
    ///
    /// The returned step is [`AcceptStep::StartHandshake`] exactly when the
    /// peeked byte is the TLS marker, [`AcceptStep::AcceptPlain`] for every
    /// other byte — the stream is untouched in both cases, since the peek
    /// consumed nothing — and an unexpected-end-of-stream failure when the
    /// connection closed before any byte arrived.
    pub fn on_peek(&mut self, outcome: PeekOutcome) -> (step: AcceptStep<S>)
        requires
            old(self).wf(),
            old(self).state is Peeking,
        ensures
            final(self).wf(),
            (final(self).state, step) == spec_on_peek(
                old(self).state->pending->0,
                outcome,
            ),
    {
        match outcome {
            PeekOutcome::Ready(byte) => {
                let mut taken = AcceptorState::Finished;
                core::mem::swap(&mut self.state, &mut taken);
                let pending = (match taken {
                    AcceptorState::Peeking { pending: Some(pending) } => pending,
                    _ => vstd::pervasive::unreached(),
                });
                if classify(byte) == Protocol::Tls {
                    self.state = AcceptorState::Handshaking;
                    AcceptStep::StartHandshake(pending)
                } else {
                    AcceptStep::AcceptPlain(pending)
                }
            },
            PeekOutcome::Closed => {
                self.state = AcceptorState::Finished;
                AcceptStep::Fail(AcceptorError::UnexpectedEof)
            },
            PeekOutcome::Failed => {
                self.state = AcceptorState::Finished;
                AcceptStep::Fail(AcceptorError::PeekFailed)
            },
            PeekOutcome::Pending => AcceptStep::Wait,
        }
    }

    /// Advance the machine with what one poll of the delegated secure
    /// handshake reported.
    pub fn on_handshake(&mut self, outcome: HandshakeOutcome) -> (step: AcceptStep<S>)
        requires
            old(self).state is Handshaking,
        ensures
            final(self).wf(),
            (final(self).state, step) == spec_on_handshake::<S>(outcome),
    {
        match outcome {
            HandshakeOutcome::Done => {
                self.state = AcceptorState::Finished;
                AcceptStep::AcceptTls
            },
            HandshakeOutcome::Failed => {
                self.state = AcceptorState::Finished;
                AcceptStep::Fail(AcceptorError::HandshakeFailed)
            },
            HandshakeOutcome::Pending => AcceptStep::Wait,
        }
    }
}

/// Simultaneous HTTP and HTTPS acceptor configuration.
///
/// Holds the one piece of configuration the classification logic reads:
/// whether plaintext requests should be redirected to HTTPS. The handle to
/// the secure-handshake acceptor itself is an external collaborator and is
/// kept by the server that drives the [`AcceptorMachine`].
#[derive(Clone, Copy, Debug)]
pub struct DualProtocolAcceptor {
    /// Stores if HTTP requests should be automatically upgraded to HTTPS.
    ///
    /// See [`UpgradeHttp`] for more details.
    upgrade: bool,
}

impl DualProtocolAcceptor {
    /// Whether plaintext requests will be redirected to HTTPS.
    pub closed spec fn spec_upgrade(&self) -> bool {
        self.upgrade
    }

    /// Create a new [`DualProtocolAcceptor`]. Upgrading is off by default.
    pub fn new() -> (acceptor: Self)
        ensures
            !acceptor.spec_upgrade(),
    {
        DualProtocolAcceptor { upgrade: false }
    }

    /// Set if HTTP requests should be automatically upgraded to HTTPS.
    ///
    /// See [`UpgradeHttp`] for more details.
    pub fn set_upgrade(&mut self, upgrade: bool)
        ensures
            final(self).spec_upgrade() == upgrade,
    {
        self.upgrade = upgrade;
    }

    /// Wrap a user-supplied service the way this acceptor is configured to:
    /// behind [`UpgradeHttp`] when upgrading is on, untouched otherwise. The
    /// result still awaits its [`Protocol`] tag; see
    /// [`DualProtocolServiceBuilder::build`].
    pub fn prepare<S>(&self, service: S) -> (builder: DualProtocolServiceBuilder<S>)
        ensures
            self.spec_upgrade() ==> (builder.spec_serve() matches ServiceServe::Upgrade(upgrade)
                && upgrade.spec_service() == service),
            !self.spec_upgrade() ==> builder.spec_serve() == ServiceServe::Service(service),
    {
        if self.upgrade {
            DualProtocolServiceBuilder::new_upgrade(service)
        } else {
            DualProtocolServiceBuilder::new_service(service)
        }
    }
}

/// Supplies configuration methods for servers built around
/// [`DualProtocolAcceptor`].
pub trait ServerExt: Sized {
    /// Whether plaintext requests will be redirected to HTTPS.
    spec fn spec_upgrade_enabled(&self) -> bool;

    /// Set if HTTP requests should be automatically upgraded to HTTPS.
    ///
    /// See [`UpgradeHttp`] for more details.
    fn set_upgrade(self, upgrade: bool) -> (result: Self)
        ensures
            result.spec_upgrade_enabled() == upgrade,
    ;
}

impl ServerExt for DualProtocolAcceptor {
    open spec fn spec_upgrade_enabled(&self) -> bool {
        self.spec_upgrade()
    }

    fn set_upgrade(self, upgrade: bool) -> (result: Self) {
        let mut acceptor = self;
        acceptor.upgrade = upgrade;
        acceptor
    }
}

/// Holds the service to serve for [`DualProtocolService`].
#[derive(Debug)]
pub enum ServiceServe<S> {
    /// No configuration applied, so the user-supplied service is served as
    /// is.
    Service(S),
    /// Configured to automatically upgrade HTTP requests to HTTPS, so the
    /// user-supplied service is wrapped in the [`UpgradeHttp`] service.
    Upgrade(UpgradeHttp<S>),
}

/// Holds the user-supplied service until the protocol type is determined.
#[derive(Debug)]
pub struct DualProtocolServiceBuilder<S> {
    /// The wrapped service, awaiting its protocol tag.
    serve: ServiceServe<S>,
}

impl<S> DualProtocolServiceBuilder<S> {
    /// The wrapped service this builder carries.
    pub closed spec fn spec_serve(&self) -> ServiceServe<S> {
        self.serve
    }

    /// Create a builder in the [`Service`](ServiceServe::Service) state.
    pub fn new_service(service: S) -> (builder: Self)
        ensures
            builder.spec_serve() == ServiceServe::Service(service),
    {
        DualProtocolServiceBuilder { serve: ServiceServe::Service(service) }
    }

    /// Create a builder in the [`Upgrade`](ServiceServe::Upgrade) state.
    pub fn new_upgrade(service: S) -> (builder: Self)
        ensures
            builder.spec_serve() matches ServiceServe::Upgrade(upgrade)
                && upgrade.spec_service() == service,
    {
        DualProtocolServiceBuilder { serve: ServiceServe::Upgrade(UpgradeHttp::new(service)) }
    }

    /// Create a [`DualProtocolService`] when the protocol is established.
    pub fn build(self, protocol: Protocol) -> (service: DualProtocolService<S>)
        ensures
            service.spec_serve() == self.spec_serve(),
            service.spec_protocol() == protocol,
    {
        DualProtocolService { serve: self.serve, protocol }
    }
}

/// The service handed out once a connection is classified: the wrapped
/// user-supplied service together with the connection's [`Protocol`] tag,
/// which it attaches to every request before dispatching.
#[derive(Debug)]
pub struct DualProtocolService<S> {
    /// The wrapped service.
    serve: ServiceServe<S>,
    /// The protocol this connection is using.
    protocol: Protocol,
}

impl<S> DualProtocolService<S> {
    /// The wrapped service.
    pub closed spec fn spec_serve(&self) -> ServiceServe<S> {
        self.serve
    }

    /// The protocol this connection is using.
    pub closed spec fn spec_protocol(&self) -> Protocol {
        self.protocol
    }

    /// The connection's protocol tag, as it is attached to each request.
    pub fn protocol(&self) -> (protocol: Protocol)
        ensures
            protocol == self.spec_protocol(),
    {
        self.protocol
    }

    /// Attach this connection's protocol tag to a request's metadata, so
    /// downstream consumers need not reclassify. Everything else about the
    /// request is left untouched.
    pub fn tag_request(&self, request: &mut RequestInfo)
        ensures
            *final(request) == (RequestInfo {
                protocol: Some(self.spec_protocol()),
                ..*old(request)
            }),
    {
        request.protocol = Some(self.protocol);
    }

    /// Take the service apart: the wrapped service and the connection's
    /// protocol tag.
    pub fn into_parts(self) -> (parts: (ServiceServe<S>, Protocol))
        ensures
            parts.0 == self.spec_serve(),
            parts.1 == self.spec_protocol(),
    {
        (self.serve, self.protocol)
    }

    /// Which branch serves a request: `true` when requests go through the
    /// [`UpgradeHttp`] wrapper, `false` when they pass straight to the
    /// user-supplied service.
    pub fn serves_upgrade(&self) -> (upgrade: bool)
        ensures
            upgrade == (self.spec_serve() is Upgrade),
    {
        match &self.serve {
            ServiceServe::Service(_) => false,
            ServiceServe::Upgrade(_) => true,
        }
    }
}

} // verus!
