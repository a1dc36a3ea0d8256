//! Endpoint configuration: the gateway's externally reachable address is
//! parsed from a URL-formatted setting, and both host and port must be
//! present and non-empty before any network activity starts.

use vstd::prelude::*;

use crate::HandshakeError;

verus! {

/// The host and port that `url::Url::parse` extracts from a URL string:
/// `None` when the string is not an absolute URL, otherwise the optional
/// host and the optional explicit port.
pub uninterp spec fn url_host_port(s: Seq<char>) -> Option<(Option<Seq<char>>, Option<u16>)>;

/// Relies on `url::Url::parse`, `url::Url::host_str` and `url::Url::port`:
/// the parsed host and explicit port of an absolute URL are a function of
/// the input string alone, and parsing reports failure as an error value
/// rather than panicking.
#[verifier::external_body]
fn parse_url_host_port(s: &str) -> (r: Option<(Option<String>, Option<u16>)>)
    ensures
        match (r, url_host_port(s@)) {
            (Some(parts), Some(m)) => parts.1 == m.1 && (match (parts.0, m.0) {
                (Some(h), Some(hm)) => h@ == hm,
                (None, None) => true,
                _ => false,
            }),
            (None, None) => true,
            _ => false,
        },
{
    match url::Url::parse(s) {
        Ok(u) => Some((u.host_str().map(|h| h.to_string()), u.port())),
        Err(_) => None,
    }
}

/// A network location parsed from a URL-formatted configuration value.
/// Host and port were both present in the URL, and the host is non-empty.
pub struct EndpointAddress {
    pub host: String,
    pub port: u16,
}

impl EndpointAddress {
    /// The invariant every address handed out by this module satisfies.
    pub open spec fn wf(self) -> bool {
        self.host@.len() > 0
    }
}

/// The host and port that a gateway URL must yield for startup to proceed:
/// `None` when the URL is malformed, lacks a host or an explicit port, or
/// names an empty host.
pub open spec fn endpoint_of_parts(parts: Option<(Option<Seq<char>>, Option<u16>)>) -> Option<
    (Seq<char>, u16),
> {
    match parts {
        Some((Some(h), Some(p))) => if h.len() > 0 {
            Some((h, p))
        } else {
            None
        },
        _ => None,
    }
}

/// Decides whether parsed URL parts form a usable endpoint address.
/// A missing host, an empty host or a missing explicit port is a fatal
/// configuration error, raised before any network call is made.
pub fn endpoint_from_parts(parts: Option<(Option<String>, Option<u16>)>) -> (r: Result<
    EndpointAddress,
    HandshakeError,
>)
    ensures
        match r {
            Ok(a) => {
                &&& endpoint_of_parts(view_parts(parts)) == Some((a.host@, a.port))
                &&& a.wf()
            },
            Err(e) => {
                &&& endpoint_of_parts(view_parts(parts)) is None
                &&& e == HandshakeError::ConfigurationError
            },
        },
{
    match parts {
        Some((Some(host), Some(port))) => {
            if !host.as_str().is_empty() {
                Ok(EndpointAddress { host, port })
            } else {
                Err(HandshakeError::ConfigurationError)
            }
        },
        _ => Err(HandshakeError::ConfigurationError),
    }
}

/// The mathematical value of parsed URL parts.
pub open spec fn view_parts(parts: Option<(Option<String>, Option<u16>)>) -> Option<
    (Option<Seq<char>>, Option<u16>),
> {
    match parts {
        Some((Some(h), p)) => Some((Some(h@), p)),
        Some((None, p)) => Some((None, p)),
        None => None,
    }
}

/// Parses the gateway's own URL and builds its endpoint address. Fails with
/// a configuration error — before any network call — when the URL is
/// malformed or lacks a non-empty host or an explicit port.
pub fn endpoint_from_url(s: &str) -> (r: Result<EndpointAddress, HandshakeError>)
    ensures
        match r {
            Ok(a) => {
                &&& endpoint_of_parts(url_host_port(s@)) == Some((a.host@, a.port))
                &&& a.wf()
            },
            Err(e) => {
                &&& endpoint_of_parts(url_host_port(s@)) is None
                &&& e == HandshakeError::ConfigurationError
            },
        },
{
    let parts = parse_url_host_port(s);
    endpoint_from_parts(parts)
}

} // verus!
