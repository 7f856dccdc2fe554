//! HTTP to HTTPS upgrade implementation.
//!
//! See [`UpgradeHttp`].
//!
//! The service works on [`RequestInfo`], the per-request metadata the
//! redirect decision reads: the declared scheme, the host found in the
//! request line, the relevant headers, the path and query, and the
//! [`Protocol`] tag the connection acceptor attached. The surrounding
//! server extracts these plain values from its own request type and builds
//! the real response from the returned [`UpgradeResponse`].

use vstd::prelude::*;
use vstd::string::StringExecFns;

use crate::dual_protocol::Protocol;

verus! {

/// Status code of the permanent-redirect response a plaintext request is
/// answered with.
pub const MOVED_PERMANENTLY: u16 = 301;

/// Status code of the client-error response a plaintext request is answered
/// with when its redirect target cannot be determined.
pub const BAD_REQUEST: u16 = 400;

/// One request header, as the redirect decision sees it.
#[derive(Clone, Debug)]
pub enum HeaderEntry {
    /// The request does not carry the header.
    Missing,
    /// The header is present but its value is not a readable string.
    Opaque,
    /// The header is present with this value.
    Text(String),
}

/// The per-request metadata the upgrade decision reads.
#[derive(Clone, Debug)]
pub struct RequestInfo {
    /// The scheme of the request target, if the request declared one.
    pub scheme: Option<String>,
    /// The host of the request target, if the request target carries one.
    pub uri_host: Option<String>,
    /// Path and query of the request target, if it carries them.
    pub path_and_query: Option<String>,
    /// The forwarded-host override header.
    pub forwarded_host: HeaderEntry,
    /// The standard host header.
    pub host_header: HeaderEntry,
    /// The protocol-upgrade request header.
    pub upgrade_header: HeaderEntry,
    /// The classification tag attached by the connection acceptor. Always
    /// present by the time a request reaches [`UpgradeHttp`]; its absence is
    /// a programming error.
    pub protocol: Option<Protocol>,
}

/// Whether a string is a valid URI authority. Stands for what
/// `http::uri::Authority::try_from` accepts; its exact grammar is not
/// restated here.
pub uninterp spec fn authority_ok(host: Seq<char>) -> bool;

/// The host value the redirect target is taken from: the forwarded-host
/// override if that header is present, else the standard host header; a
/// present but unreadable header falls back — like an absent one — to the
/// host of the request target.
pub open spec fn spec_host_candidate(request: RequestInfo) -> Option<Seq<char>> {
    let picked = if !(request.forwarded_host is Missing) {
        request.forwarded_host
    } else {
        request.host_header
    };
    match picked {
        HeaderEntry::Text(host) => Some(host@),
        _ => match request.uri_host {
            Some(host) => Some(host@),
            None => None,
        },
    }
}

/// The authority of the redirect target: the host candidate, if there is
/// one and it is a valid authority.
pub open spec fn spec_authority(request: RequestInfo) -> Option<Seq<char>> {
    match spec_host_candidate(request) {
        Some(host) => if authority_ok(host) {
            Some(host)
        } else {
            None
        },
        None => None,
    }
}

/// Whether the request asks for a protocol upgrade to a bidirectional
/// channel: recognized via the explicit alternate scheme, or — since such
/// handshakes often send no scheme — via the upgrade-request header.
pub open spec fn spec_wants_websocket(request: RequestInfo) -> bool {
    (request.scheme matches Some(scheme) && scheme@ == "ws"@) || (request.upgrade_header
        matches HeaderEntry::Text(value) && value@ == "websocket"@)
}

/// The scheme of the redirect target: the secure bidirectional-channel
/// scheme for an upgrade request, the secure HTTP scheme when the request
/// declares the plain HTTP scheme or none at all, and nothing for any other
/// scheme — such a request is unrecognized.
pub open spec fn spec_target_scheme(request: RequestInfo) -> Option<Seq<char>> {
    if spec_wants_websocket(request) {
        Some("wss"@)
    } else if request.scheme is None || (request.scheme matches Some(scheme) && scheme@
        == "http"@) {
        Some("https"@)
    } else {
        None
    }
}

/// Path and query carried over into the redirect target, verbatim; a
/// request target without them contributes nothing.
pub open spec fn spec_path_and_query(request: RequestInfo) -> Seq<char> {
    match request.path_and_query {
        Some(path_and_query) => path_and_query@,
        None => Seq::empty(),
    }
}

/// Whether a plaintext request is answered with a redirect: both the target
/// authority and the target scheme could be determined.
pub open spec fn spec_redirects(request: RequestInfo) -> bool {
    spec_authority(request) is Some && spec_target_scheme(request) is Some
}

/// The redirect target: target scheme, target authority, and the request's
/// own path and query, verbatim.
pub open spec fn spec_location(request: RequestInfo) -> Seq<char>
    recommends
        spec_redirects(request),
{
    spec_target_scheme(request)->0 + "://"@ + spec_authority(request)->0 + spec_path_and_query(
        request,
    )
}

/// The response a plaintext request is answered with. Its body is always
/// empty.
#[derive(Clone, Debug)]
pub struct UpgradeResponse {
    /// The status code: permanent redirect, or bad request when the
    /// redirect target could not be determined.
    pub status: u16,
    /// The redirect target, carried in the response's location header;
    /// absent on a bad-request response.
    pub location: Option<String>,
}

/// What a plaintext request must be answered with: a permanent redirect to
/// the exact redirect target when that target can be determined, and a
/// bad request — never a guess — otherwise.
pub open spec fn spec_upgrade_response(request: RequestInfo, response: UpgradeResponse) -> bool {
    if spec_redirects(request) {
        response.status == MOVED_PERMANENTLY && (response.location matches Some(location)
            && location@ == spec_location(request))
    } else {
        response.status == BAD_REQUEST && response.location is None
    }
}

/// How [`UpgradeHttp`] serves one request: forward it untouched to the
/// wrapped service, or answer it directly with the given response.
#[derive(Clone, Debug)]
pub enum UpgradeDecision {
    /// The request came over TLS: it passes through to the wrapped service,
    /// whose response is returned unchanged.
    Forward,
    /// The request came over plaintext: it is answered directly, bypassing
    /// the wrapped service.
    Respond(UpgradeResponse),
}

/// Relies on `http::uri::Authority::try_from(&str)`: it accepts exactly the
/// non-empty strings matching the URI authority grammar, keeps an accepted
/// string byte-for-byte, and renders back as exactly that string. Validity
/// depends on the characters alone.
#[verifier::external_body]
fn parse_authority(host: &str) -> (authority: Option<String>)
    ensures
        authority is Some <==> authority_ok(host@),
        authority matches Some(parsed) ==> parsed@ == host@,
{
    http::uri::Authority::try_from(host).ok().map(|authority| authority.to_string())
}

/// Whether two strings hold the same characters.
fn str_eq(left: &str, right: &str) -> (equal: bool)
    ensures
        equal == (left@ == right@),
{
    let left = left.to_owned();
    let right = right.to_owned();
    left == right
}

/// Extract the host the redirect target is taken from, keeping it only if
/// it is a valid authority.
pub fn extract_authority(request: &RequestInfo) -> (authority: Option<String>)
    ensures
        authority is Some <==> spec_authority(*request) is Some,
        authority matches Some(extracted) ==> spec_authority(*request) == Some(extracted@),
{
    let picked: &HeaderEntry = match &request.forwarded_host {
        HeaderEntry::Missing => &request.host_header,
        _ => &request.forwarded_host,
    };
    let host: Option<&String> = match picked {
        HeaderEntry::Text(host) => Some(host),
        _ => match &request.uri_host {
            Some(host) => Some(host),
            None => None,
        },
    };
    match host {
        Some(host) => parse_authority(host.as_str()),
        None => None,
    }
}

/// Build the redirect target from its three parts, verbatim.
fn build_location(scheme: &str, authority: &str, path_and_query: &str) -> (location: String)
    ensures
        location@ == scheme@ + "://"@ + authority@ + path_and_query@,
{
    let mut location = scheme.to_owned();
    location.append("://");
    location.append(authority);
    location.append(path_and_query);
    location
}

/// Answer a plaintext request: a permanent redirect to the secure
/// equivalent of the request's own target when host and scheme can be
/// determined, a bad request otherwise. The response body is always empty.
pub fn upgrade_response(request: &RequestInfo) -> (response: UpgradeResponse)
    ensures
        spec_upgrade_response(*request, response),
{
    let authority = extract_authority(request);

    let wants_websocket = (match &request.scheme {
        Some(scheme) => str_eq(scheme.as_str(), "ws"),
        None => false,
    }) || (match &request.upgrade_header {
        HeaderEntry::Text(value) => str_eq(value.as_str(), "websocket"),
        _ => false,
    });
    let scheme: Option<&str> = if wants_websocket {
        Some("wss")
    } else {
        match &request.scheme {
            None => Some("https"),
            Some(scheme) => if str_eq(scheme.as_str(), "http") {
                Some("https")
            } else {
                None
            },
        }
    };

    match (authority, scheme) {
        (Some(authority), Some(scheme)) => {
            let path_and_query: &str = match &request.path_and_query {
                Some(path_and_query) => path_and_query.as_str(),
                None => "",
            };
            proof {
                reveal_strlit("");
                assert(""@ =~= Seq::<char>::empty());
            }
            let location = build_location(scheme, authority.as_str(), path_and_query);
            UpgradeResponse { status: MOVED_PERMANENTLY, location: Some(location) }
        },
        _ => UpgradeResponse { status: BAD_REQUEST, location: None },
    }
}

/// Layer upgrading HTTP requests to HTTPS.
///
/// See [`UpgradeHttp`] for more details.
#[derive(Clone, Copy, Debug)]
pub struct UpgradeHttpLayer;

impl UpgradeHttpLayer {
    /// Wrap a service in [`UpgradeHttp`].
    pub fn layer<S>(&self, inner: S) -> (service: UpgradeHttp<S>)
        ensures
            service.spec_service() == inner,
    {
        UpgradeHttp::new(inner)
    }
}

/// Service upgrading HTTP requests to HTTPS by using a permanent-redirect
/// status code.
///
/// Note that this service always redirects with the given path and query.
/// Depending on how it is applied it will redirect even in the case of a
/// resulting not-found status code at the destination.
#[derive(Clone, Debug)]
pub struct UpgradeHttp<S> {
    /// Wrapped user-provided service.
    service: S,
}

impl<S> UpgradeHttp<S> {
    /// The wrapped service.
    pub closed spec fn spec_service(&self) -> S {
        self.service
    }

    /// Creates a new [`UpgradeHttp`].
    pub fn new(service: S) -> (upgrade: Self)
        ensures
            upgrade.spec_service() == service,
    {
        UpgradeHttp { service }
    }

    /// Consumes the [`UpgradeHttp`], returning the wrapped service.
    pub fn into_inner(self) -> (service: S)
        ensures
            service == self.spec_service(),
    {
        self.service
    }

    /// Return a reference to the wrapped service.
    pub fn get_ref(&self) -> (service: &S)
        ensures
            service == self.spec_service(),
    {
        &self.service
    }

    /// Return a mutable reference to the wrapped service.
    pub fn get_mut(&mut self) -> (service: &mut S)
        ensures
            *service == old(self).spec_service(),
            final(self).spec_service() == *final(service),
    {
        &mut self.service
    }

    /// Decide how one request is served, from the protocol tag the
    /// connection acceptor attached: a secure request passes through to the
    /// wrapped service untouched, a plaintext one is answered directly with
    /// its upgrade response. A missing tag is a programming error — a caller
    /// must fail fast instead.
    pub fn call(&self, request: &RequestInfo) -> (decision: UpgradeDecision)
        requires
            request.protocol is Some,
        ensures
            request.protocol == Some(Protocol::Tls) ==> decision is Forward,
            request.protocol == Some(Protocol::Plain) ==> (decision
                matches UpgradeDecision::Respond(response) && spec_upgrade_response(
                *request,
                response,
            )),
    {
        match request.protocol {
            Some(Protocol::Tls) => UpgradeDecision::Forward,
            Some(Protocol::Plain) => UpgradeDecision::Respond(upgrade_response(request)),
            None => vstd::pervasive::unreached(),
        }
    }
}

/// The continuation [`UpgradeHttp`] serves one request with.
#[derive(Debug)]
pub enum UpgradeHttpFuture<F> {
    /// The request was using the HTTPS protocol, so the wrapped service's
    /// own continuation is passed through.
    Service(F),
    /// The request was using the HTTP protocol, so the connection will be
    /// upgraded: the prebuilt response, present exactly until it is handed
    /// out.
    Upgrade(Option<UpgradeResponse>),
}

impl<F> UpgradeHttpFuture<F> {
    /// Create a future in the [`Service`](UpgradeHttpFuture::Service)
    /// state.
    pub fn new_service(future: F) -> (result: Self)
        ensures
            result == UpgradeHttpFuture::Service(future),
    {
        UpgradeHttpFuture::Service(future)
    }

    /// Create a future in the [`Upgrade`](UpgradeHttpFuture::Upgrade)
    /// state.
    pub fn new_upgrade(response: UpgradeResponse) -> (result: Self)
        ensures
            result == UpgradeHttpFuture::<F>::Upgrade(Some(response)),
    {
        UpgradeHttpFuture::Upgrade(Some(response))
    }

    /// Hand out the prebuilt response, consuming it: the upgrade branch
    /// resolves at most once, and asking again is a programming error that
    /// this contract rules out — a driver must fail fast instead.
    pub fn take_response(&mut self) -> (response: UpgradeResponse)
        requires
            (*old(self)) is Upgrade,
            (*old(self))->Upgrade_0 is Some,
        ensures
            response == (*old(self))->Upgrade_0->0,
            *final(self) == UpgradeHttpFuture::<F>::Upgrade(None),
    {
        let mut taken = UpgradeHttpFuture::Upgrade(None);
        core::mem::swap(self, &mut taken);
        match taken {
            UpgradeHttpFuture::Upgrade(Some(response)) => response,
            _ => vstd::pervasive::unreached(),
        }
    }
}

/// Repeating the same plaintext request against the same configuration
/// always yields the same answer: whether it redirects, and the redirect
/// target itself, are functions of the request metadata alone.
pub proof fn lemma_redirect_idempotent(first: RequestInfo, second: RequestInfo)
    requires
        first == second,
    ensures
        spec_redirects(first) == spec_redirects(second),
        spec_redirects(first) ==> spec_location(first) == spec_location(second),
{
}

} // verus!
