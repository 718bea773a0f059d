use vstd::prelude::*;
use vstd::string::*;
use crate::proxy::message::{find_header, first_header, Header, HttpRequest};

verus! {

/// The port of plain HTTP.
pub const HTTP_PORT: u16 = 80;

/// The port of HTTP over TLS.
pub const HTTPS_PORT: u16 = 443;

/// The parts of a URI that the proxy reads, each absent where the URI has none.
#[derive(Debug)]
pub struct UriParts {
    pub scheme: Option<String>,
    pub host: Option<String>,
    pub port: Option<u16>,
    pub path: Option<String>,
}

/// The parts of a URI as plain values: scheme, host, port, path with query.
pub type PartsView = (Option<Seq<char>>, Option<Seq<char>>, Option<u16>, Option<Seq<char>>);

pub open spec fn text_view(text: Option<String>) -> Option<Seq<char>> {
    match text {
        Some(t) => Some(t@),
        None => None,
    }
}

pub open spec fn parts_view(parts: Option<UriParts>) -> Option<PartsView> {
    match parts {
        Some(p) => Some((text_view(p.scheme), text_view(p.host), p.port, text_view(p.path))),
        None => None,
    }
}

/// The parts that the URI parser of the `http` crate finds in a text, or `None`
/// where it rejects the text.
pub uninterp spec fn parsed_uri(text: Seq<char>) -> Option<
    (Option<Seq<char>>, Option<Seq<char>>, Option<u16>, Option<Seq<char>>),
>;

/// Parses a text with `Uri::from_str` of the `http` crate, which `hyper` hands
/// on, and reads the result with `scheme_str`, `host`, `port_u16` and
/// `path_and_query`. Nothing is claimed of the parts but that they depend on
/// the text alone.
#[verifier::external_body]
fn parse_uri(text: &str) -> (parts: Option<UriParts>)
    ensures
        parts_view(parts) == parsed_uri(text@),
{
    match text.parse::<hyper::Uri>() {
        Ok(uri) => Some(
            UriParts {
                scheme: uri.scheme_str().map(String::from),
                host: uri.host().map(String::from),
                port: uri.port_u16(),
                path: uri.path_and_query().map(|p| String::from(p.as_str())),
            },
        ),
        Err(_) => None,
    }
}

/// The parts of the target of a request.
pub fn parse_target(request: &HttpRequest) -> (parts: Option<UriParts>)
    ensures
        parts_view(parts) == parsed_uri(request.target@),
{
    parse_uri(request.target.as_str())
}

/// Where a request goes: the origin's host and port, whether it is reached
/// over TLS, and the path with query to ask it for.
#[derive(Debug)]
pub struct OriginTarget {
    pub secure: bool,
    pub host: String,
    pub port: u16,
    pub path: String,
}

/// An origin as plain values.
pub struct OriginView {
    pub secure: bool,
    pub host: Seq<char>,
    pub port: u16,
    pub path: Seq<char>,
}

impl View for OriginTarget {
    type V = OriginView;

    open spec fn view(&self) -> OriginView {
        OriginView { secure: self.secure, host: self.host@, port: self.port, path: self.path@ }
    }
}

/// The port that is meant where none is written.
pub open spec fn default_port(secure: bool) -> u16 {
    if secure {
        HTTPS_PORT
    } else {
        HTTP_PORT
    }
}

/// The port written, or the default one.
pub open spec fn port_or_default(port: Option<u16>, secure: bool) -> u16 {
    match port {
        Some(p) => p,
        None => default_port(secure),
    }
}

/// The path written, or the root.
pub open spec fn path_or_root(path: Option<Seq<char>>) -> Seq<char> {
    match path {
        Some(p) if p.len() > 0 => p,
        _ => "/"@,
    }
}

/// Where a request is to go.
#[derive(Debug)]
pub enum Destination {
    /// To an origin.
    Origin(OriginTarget),
    /// Nowhere: the request is addressed to the proxy itself.
    Proxy,
    /// Nowhere: the request names no origin that the proxy can reach.
    Unknown,
}

/// A destination as plain values.
pub enum DestinationView {
    Origin(OriginView),
    Proxy,
    Unknown,
}

impl View for Destination {
    type V = DestinationView;

    open spec fn view(&self) -> DestinationView {
        match self {
            Destination::Origin(o) => DestinationView::Origin(o@),
            Destination::Proxy => DestinationView::Proxy,
            Destination::Unknown => DestinationView::Unknown,
        }
    }
}

/// The origin that an absolute target names: its host, reached over `http`
/// or `https`. Another scheme, or an empty host, names none.
pub open spec fn named_origin(
    scheme: Seq<char>,
    name: Seq<char>,
    port: Option<u16>,
    path: Option<Seq<char>>,
) -> DestinationView {
    if name.len() == 0 {
        DestinationView::Unknown
    } else if scheme == "http"@ {
        DestinationView::Origin(
            OriginView {
                secure: false,
                host: name,
                port: port_or_default(port, false),
                path: path_or_root(path),
            },
        )
    } else if scheme == "https"@ {
        DestinationView::Origin(
            OriginView {
                secure: true,
                host: name,
                port: port_or_default(port, true),
                path: path_or_root(path),
            },
        )
    } else {
        DestinationView::Unknown
    }
}

/// The origin of a request that came through a tunnel with only a path as
/// its target: the host of its `Host` header, reached over TLS.
pub open spec fn tunnelled_origin(path: Seq<char>, host: Option<PartsView>) -> DestinationView {
    match host {
        Some((None, Some(name), port, None)) if name.len() > 0 => DestinationView::Origin(
            OriginView {
                secure: true,
                host: name,
                port: port_or_default(port, true),
                path: path_or_root(Some(path)),
            },
        ),
        _ => DestinationView::Unknown,
    }
}

/// Where a request goes, from the parts of its target and of its `Host`
/// header. A target with a scheme and a host names the origin itself. A
/// target that is only a path is, on a plain connection, addressed to the
/// proxy; through a tunnel it is asked of the host of the `Host` header.
/// Any other request goes nowhere.
pub open spec fn destination_of(
    target: Option<PartsView>,
    host: Option<PartsView>,
    tunnelled: bool,
) -> DestinationView {
    match target {
        Some((Some(scheme), Some(name), port, path)) => named_origin(scheme, name, port, path),
        Some((None, None, _, Some(path))) => if tunnelled {
            tunnelled_origin(path, host)
        } else {
            DestinationView::Proxy
        },
        _ => DestinationView::Unknown,
    }
}

fn chosen_port(port: Option<u16>, secure: bool) -> (p: u16)
    ensures
        p == port_or_default(port, secure),
{
    match port {
        Some(p) => p,
        None => if secure {
            HTTPS_PORT
        } else {
            HTTP_PORT
        },
    }
}

fn chosen_path(path: Option<String>) -> (p: String)
    ensures
        p@ == path_or_root(text_view(path)),
{
    match path {
        Some(p) => {
            if p.as_str().unicode_len() > 0 {
                p
            } else {
                String::from_str("/")
            }
        },
        None => String::from_str("/"),
    }
}

/// Decides where a request goes from the parts of its target and of its
/// `Host` header.
pub fn destination_from_parts(target: Option<UriParts>, host: Option<UriParts>, tunnelled: bool) -> (destination:
    Destination)
    ensures
        destination@ == destination_of(parts_view(target), parts_view(host), tunnelled),
{
    let Some(parts) = target else {
        return Destination::Unknown;
    };
    let UriParts { scheme, host: name, port, path } = parts;
    match (scheme, name) {
        (Some(scheme), Some(name)) => {
            if name.as_str().unicode_len() == 0 {
                Destination::Unknown
            } else if scheme == String::from_str("http") {
                Destination::Origin(
                    OriginTarget {
                        secure: false,
                        host: name,
                        port: chosen_port(port, false),
                        path: chosen_path(path),
                    },
                )
            } else if scheme == String::from_str("https") {
                Destination::Origin(
                    OriginTarget {
                        secure: true,
                        host: name,
                        port: chosen_port(port, true),
                        path: chosen_path(path),
                    },
                )
            } else {
                Destination::Unknown
            }
        },
        (None, None) => {
            let Some(path) = path else {
                return Destination::Unknown;
            };
            if !tunnelled {
                return Destination::Proxy;
            }
            let Some(from_header) = host else {
                return Destination::Unknown;
            };
            let UriParts { scheme: s, host: h, port: p, path: q } = from_header;
            match (s, h, q) {
                (None, Some(name), None) => {
                    if name.as_str().unicode_len() == 0 {
                        Destination::Unknown
                    } else {
                        Destination::Origin(
                            OriginTarget {
                                secure: true,
                                host: name,
                                port: chosen_port(p, true),
                                path: chosen_path(Some(path)),
                            },
                        )
                    }
                },
                _ => Destination::Unknown,
            }
        },
        _ => Destination::Unknown,
    }
}

/// The parts of the value of the first `Host` header, where there is one and
/// it parses.
pub open spec fn host_parts(headers: Seq<Header>) -> Option<PartsView> {
    match first_header(headers, "host"@) {
        Some(at) => parsed_uri(headers[at].value@),
        None => None,
    }
}

/// Resolves where a request goes: its target is parsed, and so is its `Host`
/// header where it has one; `destination_from_parts` decides on the parts.
pub fn resolve_origin(request: &HttpRequest, tunnelled: bool) -> (destination: Destination)
    ensures
        destination@ == destination_of(
            parsed_uri(request.target@),
            host_parts(request.headers@),
            tunnelled,
        ),
{
    let target = parse_target(request);
    let host = match find_header(&request.headers, "host") {
        Some(at) => parse_uri(request.headers[at].value.as_str()),
        None => None,
    };
    destination_from_parts(target, host, tunnelled)
}

} // verus!
