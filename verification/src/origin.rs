//! From a radio stream's URL to a connection plan: scheme, host, port
//! and path, with the scheme deciding between plain TCP and TLS and
//! supplying the default port.

use vstd::prelude::*;
use crate::MediaError;

verus! {

/// The parts of a parsed absolute URL that the relay reads.
#[derive(Debug)]
pub struct UrlParts {
    pub scheme: String,
    pub host: String,
    /// The port written in the URL, if any.
    pub port: Option<u16>,
    pub path: String,
}

/// The mathematical content of the parts: scheme, host, explicit port, path.
pub open spec fn parts_view(p: UrlParts) -> (Seq<char>, Seq<char>, Option<u16>, Seq<char>) {
    (p.scheme@, p.host@, p.port, p.path@)
}

pub open spec fn opt_parts_view(r: Option<UrlParts>) -> Option<
    (Seq<char>, Seq<char>, Option<u16>, Seq<char>),
> {
    match r {
        Some(p) => Some(parts_view(p)),
        None => None,
    }
}

/// What `url::Url::parse` makes of a string: `None` when the string is
/// not an absolute URL with a host, otherwise its scheme, host, explicit
/// port and path. A function of the string alone.
pub uninterp spec fn url_parts_of(s: Seq<char>) -> Option<
    (Seq<char>, Seq<char>, Option<u16>, Seq<char>),
>;

/// Relies on `url::Url::parse` and the accessors `scheme`, `host_str`,
/// `port` and `path` of the parsed value: parsing a string either fails
/// or yields a URL whose parts depend on the string alone. A URL without
/// a host (`host_str` returns `None`, as for `data:` URLs) is folded
/// into `None` here: the relay cannot connect anywhere without a host.
#[verifier::external_body]
fn split_url(s: &str) -> (r: Option<UrlParts>)
    ensures
        opt_parts_view(r) == url_parts_of(s@),
{
    match url::Url::parse(s) {
        Ok(u) => match u.host_str() {
            Some(h) => Some(UrlParts {
                scheme: u.scheme().to_string(),
                host: h.to_string(),
                port: u.port(),
                path: u.path().to_string(),
            }),
            None => None,
        },
        Err(_) => None,
    }
}

/// A connection plan for the relay: where to connect, whether to wrap
/// the connection in TLS, and which path to request.
#[derive(Debug)]
pub struct Origin {
    pub tls: bool,
    pub host: String,
    pub port: u16,
    pub path: String,
}

/// The mathematical content of a connection plan.
pub open spec fn origin_view(o: Origin) -> (bool, Seq<char>, u16, Seq<char>) {
    (o.tls, o.host@, o.port, o.path@)
}

pub open spec fn port_or(p: Option<u16>, default: u16) -> u16 {
    match p {
        Some(x) => x,
        None => default,
    }
}

/// The plan that URL parts call for: plain transport on port 80 for
/// `http`, TLS on port 443 for `https` (an explicit port wins in both
/// cases), and a refusal of every other scheme before any connection
/// is attempted.
pub open spec fn spec_plan(parts: (Seq<char>, Seq<char>, Option<u16>, Seq<char>)) -> Result<
    (bool, Seq<char>, u16, Seq<char>),
    MediaError,
> {
    if parts.0 == "http"@ {
        Ok((false, parts.1, port_or(parts.2, 80), parts.3))
    } else if parts.0 == "https"@ {
        Ok((true, parts.1, port_or(parts.2, 443), parts.3))
    } else {
        Err(MediaError::UnsupportedScheme)
    }
}

/// Turns URL parts into a connection plan, refusing schemes other than
/// `http` and `https`.
pub fn plan_origin(parts: UrlParts) -> (r: Result<Origin, MediaError>)
    ensures
        match spec_plan(parts_view(parts)) {
            Ok(v) => r matches Ok(o) && origin_view(o) == v,
            Err(e) => r matches Err(e2) && e2 == e,
        },
{
    let http = String::from_str("http");
    let https = String::from_str("https");
    if parts.scheme == http {
        let port = match parts.port {
            Some(p) => p,
            None => 80,
        };
        Ok(Origin { tls: false, host: parts.host, port, path: parts.path })
    } else if parts.scheme == https {
        let port = match parts.port {
            Some(p) => p,
            None => 443,
        };
        Ok(Origin { tls: true, host: parts.host, port, path: parts.path })
    } else {
        Err(MediaError::UnsupportedScheme)
    }
}

/// Parses a stream URL and plans the connection: `BadRequest` for a
/// string that is not an absolute URL with a host, `UnsupportedScheme`
/// for a scheme that is neither `http` nor `https`, and otherwise the
/// host, port (explicit or the scheme's default) and path to use.
pub fn parse_origin(url: &str) -> (r: Result<Origin, MediaError>)
    ensures
        match url_parts_of(url@) {
            None => r matches Err(e) && e == MediaError::BadRequest,
            Some(parts) => match spec_plan(parts) {
                Ok(v) => r matches Ok(o) && origin_view(o) == v,
                Err(e) => r matches Err(e2) && e2 == e,
            },
        },
{
    match split_url(url) {
        Some(parts) => plan_origin(parts),
        None => Err(MediaError::BadRequest),
    }
}

} // verus!
