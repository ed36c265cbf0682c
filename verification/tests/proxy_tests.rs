use rustws::error::ClientError;
use rustws::proxy::{check_proxy_response, connect_request, plan_proxy, proxy_connection_plan, ProxyPlan};
use rustws::urls::{parse_url_parts, url_port_written, UrlParts};

fn expect_http(plan: Result<ProxyPlan, ClientError>) -> (String, String) {
    match plan {
        Ok(ProxyPlan::HttpConnect { proxy_addr, request }) => (proxy_addr, request),
        _ => panic!("expected an HTTP CONNECT plan"),
    }
}

#[test]
fn connect_request_text() {
    assert_eq!(
        connect_request("fstream.binance.com", 443),
        "CONNECT fstream.binance.com:443 HTTP/1.1\r\nHost: fstream.binance.com:443\r\nUser-Agent: rustws-client\r\nProxy-Connection: Keep-Alive\r\n\r\n"
    );
}

#[test]
fn http_proxy_plan() {
    let (addr, request) = expect_http(proxy_connection_plan("http://127.0.0.1:7890", "stream.binance.com", 9443));
    assert_eq!(addr, "127.0.0.1:7890");
    assert_eq!(request, connect_request("stream.binance.com", 9443));
}

#[test]
fn https_proxy_plan_uses_default_port_when_none_given() {
    let (addr, _) = expect_http(proxy_connection_plan("https://proxy.example", "h", 1));
    assert_eq!(addr, "proxy.example:7890");
    let (addr, _) = expect_http(proxy_connection_plan("http://10.0.0.1/", "h", 1));
    assert_eq!(addr, "10.0.0.1:7890");
}

#[test]
fn written_default_port_is_kept() {
    let (addr, _) = expect_http(proxy_connection_plan("http://10.0.0.2:80", "h", 1));
    assert_eq!(addr, "10.0.0.2:80");
    let (addr, _) = expect_http(proxy_connection_plan("https://user:pw@proxy.example:443/x", "h", 1));
    assert_eq!(addr, "proxy.example:443");
    let (addr, _) = expect_http(proxy_connection_plan("http://[::1]:80", "h", 1));
    assert_eq!(addr, "[::1]:80");
    let (addr, _) = expect_http(proxy_connection_plan("http://[::1]", "h", 1));
    assert_eq!(addr, "[::1]:7890");
    let (addr, _) = expect_http(proxy_connection_plan("http://10.0.0.2:/", "h", 1));
    assert_eq!(addr, "10.0.0.2:7890");
}

#[test]
fn port_written_in_text() {
    assert!(url_port_written("http://10.0.0.2:80"));
    assert!(url_port_written("socks5://h:1080/path"));
    assert!(url_port_written("http://u:p@h:80?q"));
    assert!(!url_port_written("http://u:p@h/x:80"));
    assert!(!url_port_written("http://[::1]"));
    assert!(url_port_written("http://[::1]:8080"));
    assert!(!url_port_written("http://h:"));
    assert!(!url_port_written("no colon here"));
}

#[test]
fn url_parts_are_normalised_by_the_url_parser() {
    let (addr, _) = expect_http(proxy_connection_plan("HTTP://Proxy.Example:3128/path", "h", 1));
    assert_eq!(addr, "proxy.example:3128");
}

#[test]
fn socks5_proxy_plan() {
    match proxy_connection_plan("socks5://localhost:1080", "fstream.binance.com", 443) {
        Ok(ProxyPlan::Socks5 { proxy_host, proxy_port, target_host, target_port }) => {
            assert_eq!(proxy_host, "localhost");
            assert_eq!(proxy_port, 1080);
            assert_eq!(target_host, "fstream.binance.com");
            assert_eq!(target_port, 443);
        }
        _ => panic!("expected a SOCKS5 plan"),
    }
}

#[test]
fn unsupported_scheme_is_refused() {
    match proxy_connection_plan("ftp://127.0.0.1:21", "h", 1) {
        Err(e @ ClientError::UnsupportedProxyScheme(_)) => {
            assert_eq!(e.message(), "不支持的代理协议: ftp");
        }
        _ => panic!("expected an unsupported scheme"),
    }
}

#[test]
fn unparsable_proxy_url_is_an_error() {
    match proxy_connection_plan("127.0.0.1:7890", "h", 1) {
        Err(e @ ClientError::InvalidUrl(url::ParseError::RelativeUrlWithoutBase)) => {
            assert_eq!(e.message(), "relative URL without a base")
        }
        _ => panic!("expected an invalid URL"),
    }
}

#[test]
fn plan_from_parts_without_host() {
    let parts = UrlParts { scheme: "socks5".to_string(), host: None, port: None, known_port: None };
    match plan_proxy(&parts, false, "t", 2) {
        Ok(ProxyPlan::Socks5 { proxy_host, proxy_port, .. }) => {
            assert_eq!(proxy_host, "127.0.0.1");
            assert_eq!(proxy_port, 7890);
        }
        _ => panic!("expected a SOCKS5 plan"),
    }
}

#[test]
fn plan_from_parts_with_written_default_port() {
    let parts = UrlParts {
        scheme: "http".to_string(),
        host: Some("p".to_string()),
        port: None,
        known_port: Some(80),
    };
    assert_eq!(expect_http(plan_proxy(&parts, true, "t", 2)).0, "p:80");
    assert_eq!(expect_http(plan_proxy(&parts, false, "t", 2)).0, "p:7890");
}

#[test]
fn proxy_answers() {
    assert!(check_proxy_response(b"HTTP/1.1 200 Connection established\r\n\r\n").is_ok());
    assert!(check_proxy_response(b"\xff200").is_ok());
    match check_proxy_response(b"HTTP/1.1 407 Proxy Authentication Required\xff") {
        Err(e @ ClientError::ProxyRefused(_)) => {
            assert_eq!(
                e.message(),
                "代理服务器拒绝连接: HTTP/1.1 407 Proxy Authentication Required\u{fffd}"
            );
        }
        _ => panic!("expected a refusal"),
    }
    assert!(check_proxy_response(b"").is_err());
}

#[test]
fn error_messages() {
    assert_eq!(ClientError::ProxyAddressMissing.message(), "启用了代理但未提供代理地址");
    assert_eq!(ClientError::ConnectTimeout.message(), "连接超时");
}

#[test]
fn parsed_ports_and_defaults() {
    let p = parse_url_parts("http://h:80").ok().unwrap();
    assert_eq!((p.port, p.known_port), (None, Some(80)));
    let p = parse_url_parts("wss://fstream.binance.com/ws").ok().unwrap();
    assert_eq!((p.scheme.as_str(), p.host.as_deref(), p.port, p.known_port), ("wss", Some("fstream.binance.com"), None, Some(443)));
    let p = parse_url_parts("socks5://h").ok().unwrap();
    assert_eq!((p.port, p.known_port), (None, None));
    let p = parse_url_parts("socks5://h:1080").ok().unwrap();
    assert_eq!((p.port, p.known_port), (Some(1080), Some(1080)));
    assert!(matches!(parse_url_parts("http://[::1"), Err(url::ParseError::InvalidIpv6Address)));
}
