//! Reaching a WebSocket server through an HTTP(S) or SOCKS5 proxy: what to
//! connect to and what to send, decided from the proxy URL.

use vstd::prelude::*;
use crate::error::ClientError;
use crate::text::{contains_text, decimal, occurs_at, push_decimal, text_contains, text_eq};
use crate::urls::{default_port_spec, parse_url_parts, port_written, url_components, url_port_written, UrlParts, UrlPartsView};

verus! {

/// How to reach the target through the proxy.
pub enum ProxyPlan {
    /// Open TCP to `proxy_addr` and send `request`, an HTTP CONNECT.
    HttpConnect { proxy_addr: String, request: String },
    /// Ask the SOCKS5 proxy at `proxy_host:proxy_port` for the target.
    Socks5 { proxy_host: String, proxy_port: u16, target_host: String, target_port: u16 },
}

/// The mathematical form of a plan.
pub enum ProxyPlanView {
    HttpConnect { proxy_addr: Seq<char>, request: Seq<char> },
    Socks5 { proxy_host: Seq<char>, proxy_port: u16, target_host: Seq<char>, target_port: u16 },
}

impl View for ProxyPlan {
    type V = ProxyPlanView;

    open spec fn view(&self) -> ProxyPlanView {
        match self {
            ProxyPlan::HttpConnect { proxy_addr, request } => ProxyPlanView::HttpConnect {
                proxy_addr: proxy_addr@,
                request: request@,
            },
            ProxyPlan::Socks5 { proxy_host, proxy_port, target_host, target_port } =>
                ProxyPlanView::Socks5 {
                proxy_host: proxy_host@,
                proxy_port: *proxy_port,
                target_host: target_host@,
                target_port: *target_port,
            },
        }
    }
}

/// `host:port`.
pub open spec fn host_port(host: Seq<char>, port: u16) -> Seq<char> {
    host.push(':') + decimal(port as nat)
}

/// The HTTP CONNECT request for the target.
pub open spec fn connect_request_spec(host: Seq<char>, port: u16) -> Seq<char> {
    "CONNECT "@ + host_port(host, port) + " HTTP/1.1\r\nHost: "@ + host_port(host, port)
        + "\r\nUser-Agent: rustws-client\r\nProxy-Connection: Keep-Alive\r\n\r\n"@
}

fn push_host_port(out: &mut String, host: &str, port: u16)
    ensures
        final(out)@ == old(out)@ + host_port(host@, port),
{
    let ghost start = out@;
    out.append(host);
    out.push(':');
    push_decimal(out, port as u64);
    assert(final(out)@ =~= start + host_port(host@, port));
}

/// Writes the HTTP CONNECT request for `host:port`.
pub fn connect_request(host: &str, port: u16) -> (r: String)
    ensures
        r@ == connect_request_spec(host@, port),
{
    let mut r = String::new();
    r.append("CONNECT ");
    push_host_port(&mut r, host, port);
    r.append(" HTTP/1.1\r\nHost: ");
    push_host_port(&mut r, host, port);
    r.append("\r\nUser-Agent: rustws-client\r\nProxy-Connection: Keep-Alive\r\n\r\n");
    assert(r@ =~= connect_request_spec(host@, port));
    r
}

/// The proxy host, `127.0.0.1` when the URL has none.
pub open spec fn proxy_host_of(parts: UrlPartsView) -> Seq<char> {
    match parts.1 {
        Some(h) => h,
        None => "127.0.0.1"@,
    }
}

/// The proxy port: the port written in the URL, the scheme's default
/// included (`written` says whether one is written, since the parsed URL
/// forgets a written default port), and `7890` when none is written.
pub open spec fn proxy_port_of(parts: UrlPartsView, written: bool) -> u16 {
    match parts.2 {
        Some(p) => p,
        None => if written {
            match parts.3 {
                Some(p) => p,
                None => 7890,
            }
        } else {
            7890
        },
    }
}

/// The proxy port is the port the URL writes, the scheme's default
/// included (the parsed URL knows it as its port or its scheme's default);
/// 7890 only when the URL writes none. A SOCKS5 proxy has no default port,
/// so its port is the one written, or 7890.
pub proof fn law_written_proxy_port_is_used(parts: UrlPartsView, written: bool)
    requires
        parts.3 == match parts.2 {
            Some(x) => Some(x),
            None => default_port_spec(parts.0),
        },
    ensures
        written && parts.3 is Some ==> proxy_port_of(parts, written) == parts.3.unwrap(),
        !written && parts.2 is None ==> proxy_port_of(parts, written) == 7890,
        parts.0 == "socks5"@ ==> proxy_port_of(parts, written) == match parts.2 {
            Some(x) => x,
            None => 7890u16,
        },
{
    reveal_strlit("socks5");
    reveal_strlit("http");
    reveal_strlit("ws");
    reveal_strlit("https");
    reveal_strlit("wss");
    reveal_strlit("ftp");
    if parts.0 == "socks5"@ {
        assert(parts.0.len() == 6);
        assert(default_port_spec(parts.0) is None);
    }
}

/// The plan for a parsed proxy URL, or `None` for an unsupported scheme.
pub open spec fn proxy_plan_spec(
    parts: UrlPartsView,
    written: bool,
    target_host: Seq<char>,
    target_port: u16,
) -> Option<ProxyPlanView> {
    let host = proxy_host_of(parts);
    let port = proxy_port_of(parts, written);
    if parts.0 == "http"@ || parts.0 == "https"@ {
        Some(
            ProxyPlanView::HttpConnect {
                proxy_addr: host_port(host, port),
                request: connect_request_spec(target_host, target_port),
            },
        )
    } else if parts.0 == "socks5"@ {
        Some(
            ProxyPlanView::Socks5 {
                proxy_host: host,
                proxy_port: port,
                target_host,
                target_port,
            },
        )
    } else {
        None
    }
}

/// Decides how to reach `target_host:target_port` through the proxy whose
/// URL parsed into `parts` (`port_written` telling whether the URL text
/// writes a port): a CONNECT through an `http`/`https` proxy, a SOCKS5
/// handshake through a `socks5` proxy, an error for other schemes.
pub fn plan_proxy(parts: &UrlParts, port_written: bool, target_host: &str, target_port: u16) -> (r: Result<
    ProxyPlan,
    ClientError,
>)
    ensures
        match proxy_plan_spec(parts@, port_written, target_host@, target_port) {
            Some(plan) => r matches Ok(p) && p@ == plan,
            None => r matches Err(ClientError::UnsupportedProxyScheme(s)) && s@ == parts.scheme@,
        },
{
    let host = match &parts.host {
        Some(h) => h.clone(),
        None => String::from_str("127.0.0.1"),
    };
    let port: u16 = match parts.port {
        Some(p) => p,
        None => {
            if port_written {
                match parts.known_port {
                    Some(p) => p,
                    None => 7890,
                }
            } else {
                7890
            }
        },
    };
    let scheme = parts.scheme.as_str();
    let is_http = text_eq(scheme, "http");
    let is_https = text_eq(scheme, "https");
    if is_http || is_https {
        let mut addr = String::new();
        push_host_port(&mut addr, host.as_str(), port);
        assert(addr@ =~= host_port(host@, port));
        Ok(ProxyPlan::HttpConnect { proxy_addr: addr, request: connect_request(target_host, target_port) })
    } else if text_eq(scheme, "socks5") {
        Ok(
            ProxyPlan::Socks5 {
                proxy_host: host,
                proxy_port: port,
                target_host: String::from_str(target_host),
                target_port,
            },
        )
    } else {
        Err(ClientError::UnsupportedProxyScheme(parts.scheme.clone()))
    }
}

/// What planning through the proxy at `proxy_url` gives: the URL's parse
/// error when it does not parse, else the plan for its parts and written
/// port, or the unsupported scheme.
pub open spec fn proxy_plan_outcome(
    proxy_url: Seq<char>,
    target_host: Seq<char>,
    target_port: u16,
    r: Result<ProxyPlan, ClientError>,
) -> bool {
    match url_components(proxy_url) {
        Err(e) => r matches Err(ClientError::InvalidUrl(x)) && x == e,
        Ok(parts) => match proxy_plan_spec(parts, port_written(proxy_url), target_host, target_port) {
            Some(plan) => r matches Ok(p) && p@ == plan,
            None => r matches Err(ClientError::UnsupportedProxyScheme(s)) && s@ == parts.0,
        },
    }
}

/// Parses the proxy URL and decides how to reach the target through it.
pub fn proxy_connection_plan(proxy_url: &str, target_host: &str, target_port: u16) -> (r: Result<
    ProxyPlan,
    ClientError,
>)
    ensures
        proxy_plan_outcome(proxy_url@, target_host@, target_port, r),
{
    match parse_url_parts(proxy_url) {
        Ok(parts) => {
            let written = url_port_written(proxy_url);
            plan_proxy(&parts, written, target_host, target_port)
        },
        Err(e) => Err(ClientError::InvalidUrl(e)),
    }
}

/// What `String::from_utf8_lossy` makes of a byte string.
pub uninterp spec fn utf8_lossy(bytes: Seq<u8>) -> Seq<char>;

/// Calls `String::from_utf8_lossy` and takes the text as an owned string.
/// The contract only names the text: it is a function of the bytes alone.
#[verifier::external_body]
fn decode_lossy(bytes: &[u8]) -> (s: String)
    ensures
        s@ == utf8_lossy(bytes@),
{
    String::from_utf8_lossy(bytes).into_owned()
}

/// Whether the proxy's answer to a CONNECT request accepts it: its text,
/// decoded leniently, holds `200`.
pub open spec fn proxy_accepts(text: Seq<char>) -> bool {
    contains_text(text, "200"@)
}

/// Judges the proxy's answer to a CONNECT request.
pub fn check_proxy_response(response: &[u8]) -> (r: Result<(), ClientError>)
    ensures
        proxy_accepts(utf8_lossy(response@)) ==> r is Ok,
        !proxy_accepts(utf8_lossy(response@)) ==> (r matches Err(ClientError::ProxyRefused(t))
            && t@ == utf8_lossy(response@)),
{
    let text = decode_lossy(response);
    if text_contains(text.as_str(), "200") {
        Ok(())
    } else {
        Err(ClientError::ProxyRefused(text))
    }
}

/// A proxy accepts the CONNECT exactly when the text of its answer holds
/// the three characters `2`, `0`, `0` next to each other somewhere.
pub proof fn law_proxy_accepts_exactly_on_200(text: Seq<char>)
    ensures
        proxy_accepts(text) <==> exists|i: int|
            0 <= i && i + 3 <= text.len() && #[trigger] text[i] == '2' && text[i + 1] == '0' && text[i + 2] == '0',
{
    reveal_strlit("200");
    let pat = "200"@;
    assert(pat =~= seq!['2', '0', '0']);
    if proxy_accepts(text) {
        let i = choose|i: int| occurs_at(text, pat, i);
        assert(text.subrange(i, i + 3)[0] == text[i]);
        assert(text.subrange(i, i + 3)[1] == text[i + 1]);
        assert(text.subrange(i, i + 3)[2] == text[i + 2]);
    }
    if exists|i: int|
        0 <= i && i + 3 <= text.len() && #[trigger] text[i] == '2' && text[i + 1] == '0' && text[i + 2] == '0' {
        let i = choose|i: int|
            0 <= i && i + 3 <= text.len() && #[trigger] text[i] == '2' && text[i + 1] == '0' && text[i + 2] == '0';
        assert(text.subrange(i, i + 3) =~= pat);
        assert(occurs_at(text, pat, i));
    }
}

/// The scheme alone picks the way through the proxy: `http` and `https`
/// send a CONNECT for the target to the proxy's host and port, `socks5`
/// asks for the target by SOCKS5, any other scheme is refused. The proxy's
/// host is the URL's, or 127.0.0.1 when it has none.
pub proof fn law_proxy_plan_by_scheme(parts: UrlPartsView, written: bool, th: Seq<char>, tp: u16)
    ensures
        (parts.0 == "http"@ || parts.0 == "https"@) ==> proxy_plan_spec(parts, written, th, tp) == Some(
            ProxyPlanView::HttpConnect {
                proxy_addr: host_port(proxy_host_of(parts), proxy_port_of(parts, written)),
                request: connect_request_spec(th, tp),
            },
        ),
        parts.0 == "socks5"@ ==> proxy_plan_spec(parts, written, th, tp) == Some(
            ProxyPlanView::Socks5 {
                proxy_host: proxy_host_of(parts),
                proxy_port: proxy_port_of(parts, written),
                target_host: th,
                target_port: tp,
            },
        ),
        (parts.0 != "http"@ && parts.0 != "https"@ && parts.0 != "socks5"@) ==> proxy_plan_spec(
            parts,
            written,
            th,
            tp,
        ) is None,
        proxy_host_of(parts) == match parts.1 {
            Some(h) => h,
            None => "127.0.0.1"@,
        },
{
    reveal_strlit("http");
    reveal_strlit("https");
    reveal_strlit("socks5");
    if parts.0 == "socks5"@ {
        assert(parts.0.len() == 6);
    }
}

} // verus!
