use vstd::prelude::*;
use vstd::string::*;
use crate::certificates::ca::CertificateAuthority;
use crate::certificates::cache::{
    contents_after,
    lookup,
    signings_after,
    CertificateCache,
    LeafCertificate,
};
use crate::proxy::connection::ConnectionEvent;
use crate::proxy::message::{HttpRequest, HttpResponse};
use crate::proxy::pipeline::{synthesize, synthesized};
use crate::proxy::target::{parse_target, parsed_uri, parts_view, PartsView, UriParts, HTTPS_PORT};
use crate::utils::error::{ErrorKind, FerrumError};

verus! {

/// Whether a request asks for a tunnel.
pub open spec fn is_connect(request: &HttpRequest) -> bool {
    request.method@ == "CONNECT"@
}

/// Tells what kind of request was read, for the connection's state machine.
pub fn event_for(request: &HttpRequest) -> (event: ConnectionEvent)
    ensures
        event == if is_connect(request) {
            ConnectionEvent::ConnectRead
        } else {
            ConnectionEvent::RequestRead
        },
{
    if request.method == String::from_str("CONNECT") {
        ConnectionEvent::ConnectRead
    } else {
        ConnectionEvent::RequestRead
    }
}

/// The host and port that a tunnel is asked for, from the parts of the
/// request's target: a host, with or without a port, and nothing else. Where
/// no port is written, the port of HTTP over TLS is meant.
pub open spec fn tunnel_target(target: Option<PartsView>) -> Option<(Seq<char>, u16)> {
    match target {
        Some((None, Some(host), port, None)) if host.len() > 0 => Some(
            (
                host,
                match port {
                    Some(p) => p,
                    None => HTTPS_PORT,
                },
            ),
        ),
        _ => None,
    }
}

/// A tunnel that is ready for its handshake: where it leads, and the leaf to
/// show the client.
#[derive(Debug)]
pub struct Tunnel {
    pub host: String,
    pub port: u16,
    pub leaf: LeafCertificate,
}

/// How opening a tunnel ends.
pub enum TunnelOutcome {
    /// The target names no host: nothing was looked up.
    NoTarget,
    /// The leaf for the host was looked up, with this end.
    Looked(Seq<char>, u16, crate::certificates::cache::Outcome),
}

/// How opening a tunnel ends on a cache with the given contents.
pub open spec fn tunnel_outcome(
    contents: Map<Seq<char>, crate::certificates::cache::LeafView>,
    ca: &CertificateAuthority,
    target: Option<PartsView>,
    now: u64,
) -> TunnelOutcome {
    match tunnel_target(target) {
        Some((host, port)) => TunnelOutcome::Looked(
            host,
            port,
            lookup(contents, ca.issuer_for(host), host, now),
        ),
        None => TunnelOutcome::NoTarget,
    }
}

/// Opens a tunnel to the target of a `CONNECT` request, given as its parts:
/// the leaf for the host is taken from the cache or issued. It fails with a
/// `ProxyError` where the target names no host, and with a
/// `CertificateError` where no leaf can be had; the cache changes only by the
/// lookup.
pub fn open_tunnel_to(
    cache: &mut CertificateCache,
    ca: &CertificateAuthority,
    target: Option<UriParts>,
    now: u64,
) -> (tunnel: Result<Tunnel, FerrumError>)
    ensures
        match tunnel_outcome(old(cache)@, ca, parts_view(target), now) {
            TunnelOutcome::NoTarget => {
                &&& tunnel matches Err(e) && e.kind() == ErrorKind::Proxy
                &&& final(cache)@ == old(cache)@
                &&& final(cache).signings() == old(cache).signings()
            },
            TunnelOutcome::Looked(host, port, outcome) => {
                &&& final(cache)@ == contents_after(old(cache)@, outcome, host)
                &&& final(cache).signings() == signings_after(old(cache).signings(), outcome)
                &&& match outcome.leaf() {
                    Some(leaf) => tunnel matches Ok(t) && t.host@ == host && t.port == port
                        && t.leaf@ == leaf,
                    None => tunnel matches Err(e) && e.kind() == ErrorKind::Certificate,
                }
            },
        },
{
    let Some(parts) = target else {
        return Err(no_target());
    };
    let UriParts { scheme, host, port, path } = parts;
    match (scheme, host, path) {
        (None, Some(host), None) => {
            if host.as_str().unicode_len() == 0 {
                return Err(no_target());
            }
            let port: u16 = match port {
                Some(p) => p,
                None => HTTPS_PORT,
            };
            match cache.get_or_issue(ca, host.as_str(), now) {
                Ok(leaf) => Ok(Tunnel { host, port, leaf }),
                Err(e) => Err(e),
            }
        },
        _ => Err(no_target()),
    }
}

/// The status that tells the client that its tunnel stands.
pub const CONNECTION_ESTABLISHED: u16 = 200;

/// The answer to a `CONNECT` request that is sent before the handshake.
pub fn established() -> (response: HttpResponse)
    ensures
        synthesized(response, CONNECTION_ESTABLISHED, "Connection Established"@),
{
    synthesize(CONNECTION_ESTABLISHED, "Connection Established")
}

fn no_target() -> (e: FerrumError)
    ensures
        e.kind() == ErrorKind::Proxy,
        e.message() == "the tunnel's target names no host"@,
{
    FerrumError::ProxyError(String::from_str("the tunnel's target names no host"))
}

/// Opens a tunnel for a `CONNECT` request: its target is parsed, and
/// `open_tunnel_to` does the rest on the parts.
pub fn open_tunnel(
    cache: &mut CertificateCache,
    ca: &CertificateAuthority,
    request: &HttpRequest,
    now: u64,
) -> (tunnel: Result<Tunnel, FerrumError>)
    ensures
        match tunnel_outcome(old(cache)@, ca, parsed_uri(request.target@), now) {
            TunnelOutcome::NoTarget => {
                &&& tunnel matches Err(e) && e.kind() == ErrorKind::Proxy
                &&& final(cache)@ == old(cache)@
                &&& final(cache).signings() == old(cache).signings()
            },
            TunnelOutcome::Looked(host, port, outcome) => {
                &&& final(cache)@ == contents_after(old(cache)@, outcome, host)
                &&& final(cache).signings() == signings_after(old(cache).signings(), outcome)
                &&& match outcome.leaf() {
                    Some(leaf) => tunnel matches Ok(t) && t.host@ == host && t.port == port
                        && t.leaf@ == leaf,
                    None => tunnel matches Err(e) && e.kind() == ErrorKind::Certificate,
                }
            },
        },
{
    let target = parse_target(request);
    open_tunnel_to(cache, ca, target, now)
}

} // verus!
