//! The guest endpoint and its answer: which endpoint URLs the client may ask for credentials,
//! which endpoint it picks, and which HTTP answers it accepts.
use vstd::prelude::*;
use crate::text::{concat, decimal, decimal_text, same_text};
use url::{Host, Url};

verus! {

/// The host of a URL.
pub enum HostKind {
    Missing,
    Domain(String),
    Ipv4([u8; 4]),
    Ipv6([u16; 8]),
}

pub enum HostView {
    Missing,
    Domain(Seq<char>),
    Ipv4([u8; 4]),
    Ipv6([u16; 8]),
}

impl View for HostKind {
    type V = HostView;

    open spec fn view(&self) -> HostView {
        match self {
            HostKind::Missing => HostView::Missing,
            HostKind::Domain(d) => HostView::Domain(d@),
            HostKind::Ipv4(octets) => HostView::Ipv4(*octets),
            HostKind::Ipv6(segments) => HostView::Ipv6(*segments),
        }
    }
}

/// The parts of a parsed URL that the endpoint checks read, with its serialization.
pub struct EndpointUrl {
    pub serialized: String,
    pub scheme: String,
    pub host: HostKind,
    pub username: String,
    pub password: Option<String>,
    pub fragment: Option<String>,
}

pub struct EndpointUrlView {
    pub serialized: Seq<char>,
    pub scheme: Seq<char>,
    pub host: HostView,
    pub username: Seq<char>,
    pub password: Option<Seq<char>>,
    pub fragment: Option<Seq<char>>,
}

pub open spec fn option_text_view(t: Option<String>) -> Option<Seq<char>> {
    match t {
        Some(s) => Some(s@),
        None => None,
    }
}

impl View for EndpointUrl {
    type V = EndpointUrlView;

    open spec fn view(&self) -> EndpointUrlView {
        EndpointUrlView {
            serialized: self.serialized@,
            scheme: self.scheme@,
            host: self.host@,
            username: self.username@,
            password: option_text_view(self.password),
            fragment: option_text_view(self.fragment),
        }
    }
}

/// What the URL parser makes of `text`: the parts of the URL, or the parser's description of
/// why `text` is no URL.
pub uninterp spec fn parsed_url(text: Seq<char>) -> Result<EndpointUrlView, Seq<char>>;

pub open spec fn url_result_view(r: Result<EndpointUrl, String>) -> Result<EndpointUrlView, Seq<char>> {
    match r {
        Ok(u) => Ok(u@),
        Err(e) => Err(e@),
    }
}

/// The textual parts of a parsed URL.
struct UrlText {
    serialized: String,
    scheme: String,
    username: String,
    password: Option<String>,
    fragment: Option<String>,
}

/// Whether `parts` are the textual parts of `url`.
spec fn text_of(parts: UrlText, url: EndpointUrlView) -> bool {
    &&& parts.serialized@ == url.serialized
    &&& parts.scheme@ == url.scheme
    &&& parts.username@ == url.username
    &&& option_text_view(parts.password) == url.password
    &&& option_text_view(parts.fragment) == url.fragment
}

/// Parses `text` as an absolute URL.
///
/// Trusted: `url::Url::parse`, with the textual parts of the parsed URL copied out
/// (`as_str`, `scheme`, `username`, `password`, `fragment`) and a parse error rendered by its
/// `Display`. The result is named by `parsed_url`, a function of `text` alone; nothing more is
/// claimed of it.
#[verifier::external_body]
fn parse_url(text: &str) -> (r: Result<UrlText, String>)
    ensures
        match (r, parsed_url(text@)) {
            (Ok(parts), Ok(url)) => text_of(parts, url),
            (Err(e), Err(message)) => e@ == message,
            _ => false,
        },
{
    match Url::parse(text) {
        Ok(u) => Ok(UrlText {
            serialized: u.as_str().to_owned(),
            scheme: u.scheme().to_owned(),
            username: u.username().to_owned(),
            password: u.password().map(str::to_owned),
            fragment: u.fragment().map(str::to_owned),
        }),
        Err(error) => Err(error.to_string()),
    }
}

/// The host of the URL `text`.
///
/// Trusted: `url::Url::parse` and `Url::host`, with the host's variant copied out (a domain's
/// text, an IPv4 address's octets, an IPv6 address's segments). Where `text` parses, the host
/// is the one `parsed_url` names; nothing is claimed of a text that does not parse.
#[verifier::external_body]
fn url_host(text: &str) -> (r: HostKind)
    ensures
        parsed_url(text@) matches Ok(url) ==> r@ == url.host,
{
    let Ok(u) = Url::parse(text) else { return HostKind::Missing };
    match u.host() {
        Some(Host::Domain(d)) => HostKind::Domain(d.to_owned()),
        Some(Host::Ipv4(ip)) => HostKind::Ipv4(ip.octets()),
        Some(Host::Ipv6(ip)) => HostKind::Ipv6(ip.segments()),
        None => HostKind::Missing,
    }
}

/// A loopback host: `127.0.0.0/8`, `::1`, or the name `localhost`.
pub open spec fn is_loopback_host(host: HostView) -> bool {
    match host {
        HostView::Ipv4(octets) => octets[0] == 127,
        HostView::Ipv6(s) => s[0] == 0 && s[1] == 0 && s[2] == 0 && s[3] == 0 && s[4] == 0 && s[5]
            == 0 && s[6] == 0 && s[7] == 1,
        HostView::Domain(name) => name == "localhost"@,
        HostView::Missing => false,
    }
}

/// A host, and no credentials in the URL itself.
pub open spec fn has_valid_authority(url: EndpointUrlView) -> bool {
    !(url.host is Missing) && url.username.len() == 0 && url.password is None
}

/// HTTPS, or plain HTTP to a loopback host where development builds allow it.
pub open spec fn has_allowed_transport(url: EndpointUrlView, allow_loopback_http: bool) -> bool {
    url.scheme == "https"@ || (allow_loopback_http && url.scheme == "http"@ && is_loopback_host(
        url.host,
    ))
}

/// The endpoint `text` stands for, or why it is refused.
pub open spec fn endpoint_for(text: Seq<char>, allow_loopback_http: bool) -> Result<EndpointUrlView, Seq<char>> {
    match parsed_url(text) {
        Err(error) => Err("Invalid guest endpoint URL: "@ + error),
        Ok(url) => if !has_valid_authority(url) || url.fragment is Some || !has_allowed_transport(
            url,
            allow_loopback_http,
        ) {
            Err("Guest endpoint requires HTTPS (HTTP loopback is development-only)"@)
        } else {
            Ok(url)
        },
    }
}

fn is_loopback(host: &HostKind) -> (r: bool)
    ensures
        r == is_loopback_host(host@),
{
    match host {
        HostKind::Ipv4(octets) => octets[0] == 127,
        HostKind::Ipv6(s) => s[0] == 0 && s[1] == 0 && s[2] == 0 && s[3] == 0 && s[4] == 0 && s[5]
            == 0 && s[6] == 0 && s[7] == 1,
        HostKind::Domain(name) => same_text(name.as_str(), "localhost"),
        HostKind::Missing => false,
    }
}

/// Validates a configured guest endpoint: it must parse, name a host without embedded
/// credentials, carry no fragment, and use HTTPS, or HTTP to a loopback host when
/// `allow_loopback_http` is set.
pub fn validate_endpoint(text: &str, allow_loopback_http: bool) -> (r: Result<EndpointUrl, String>)
    ensures
        url_result_view(r) == endpoint_for(text@, allow_loopback_http),
{
    let parts = match parse_url(text) {
        Ok(parts) => parts,
        Err(error) => return Err(concat("Invalid guest endpoint URL: ", error.as_str())),
    };
    let url = EndpointUrl {
        serialized: parts.serialized,
        scheme: parts.scheme,
        host: url_host(text),
        username: parts.username,
        password: parts.password,
        fragment: parts.fragment,
    };
    let has_host = match url.host {
        HostKind::Missing => false,
        _ => true,
    };
    let valid_authority = has_host && url.username.as_str().is_empty() && url.password.is_none();
    let https = same_text(url.scheme.as_str(), "https");
    let transport = https || (allow_loopback_http && same_text(url.scheme.as_str(), "http")
        && is_loopback(&url.host));
    if !valid_authority || url.fragment.is_some() || !transport {
        return Err("Guest endpoint requires HTTPS (HTTP loopback is development-only)".to_owned());
    }
    Ok(url)
}

/// The endpoint to ask: one configured at run time wins over one embedded at build time,
/// which wins over the platform default. An invalid configured endpoint is an error rather
/// than a reason to fall back.
pub fn configured_endpoint(
    runtime: Result<Option<EndpointUrl>, String>,
    embedded: Result<Option<EndpointUrl>, String>,
    default: Result<EndpointUrl, String>,
) -> (r: Result<EndpointUrl, String>)
    ensures
        r == (match runtime {
            Err(e) => Err(e),
            Ok(Some(u)) => Ok(u),
            Ok(None) => match embedded {
                Err(e) => Err(e),
                Ok(Some(u)) => Ok(u),
                Ok(None) => default,
            },
        }),
{
    match runtime {
        Err(e) => Err(e),
        Ok(Some(u)) => Ok(u),
        Ok(None) => match embedded {
            Err(e) => Err(e),
            Ok(Some(u)) => Ok(u),
            Ok(None) => default,
        },
    }
}

/// Credentials are a few hundred bytes; anything larger is not a guest answer.
pub const MAX_RESPONSE_BYTES: usize = 8192;

/// Why an HTTP answer of the endpoint is refused, if it is.
pub open spec fn response_refusal(
    response_url: Seq<char>,
    endpoint: Seq<char>,
    status: u16,
    body_len: usize,
) -> Option<Seq<char>> {
    if response_url != endpoint {
        Some("Guest endpoint redirected; connection refused"@)
    } else if status != 200 {
        Some("Guest endpoint returned HTTP "@ + decimal(status as nat))
    } else if body_len > MAX_RESPONSE_BYTES {
        Some("Guest response is too large"@)
    } else {
        None
    }
}

/// Accepts only a direct `200` answer of reasonable size: credentials obtained after a
/// redirect, including an HTTPS downgrade, are never trusted.
pub fn validate_response(response_url: &str, endpoint: &str, status: u16, body_len: usize) -> (r:
    Result<(), String>)
    ensures
        match response_refusal(response_url@, endpoint@, status, body_len) {
            Some(reason) => r matches Err(e) && e@ == reason,
            None => r is Ok,
        },
{
    if !same_text(response_url, endpoint) {
        return Err("Guest endpoint redirected; connection refused".to_owned());
    } else if status != 200 {
        let code = decimal_text(status as u128);
        return Err(concat("Guest endpoint returned HTTP ", code.as_str()));
    } else if body_len > MAX_RESPONSE_BYTES {
        return Err("Guest response is too large".to_owned());
    }
    Ok(())
}

} // verus!
