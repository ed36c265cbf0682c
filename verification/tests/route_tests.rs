use rustws::config::{Config, EnvAction};
use rustws::error::ClientError;
use rustws::proxy::ProxyPlan;
use rustws::route::{plan_connection, Route};

fn config(url: &str, use_proxy: bool, proxy: Option<&str>) -> Config {
    Config {
        server_url: url.to_string(),
        use_proxy,
        proxy_url: proxy.map(|p| p.to_string()),
        auto_shutdown: Some(300),
        symbol: "bnbusdt".to_string(),
        streams: vec!["@aggTrade".to_string()],
    }
}

#[test]
fn direct_route_without_proxy() {
    let plan = plan_connection(&config("wss://fstream.binance.com/ws", false, None)).ok().unwrap();
    assert!(matches!(plan.route, Ok(Route::Direct)));
    assert_eq!(plan.env.len(), 2);
    assert!(matches!(&plan.env[0], EnvAction::RemoveVar(n) if n == "HTTP_PROXY"));
}

#[test]
fn proxy_route_connects_to_server_host_and_port() {
    let plan = plan_connection(&config("wss://fstream.binance.com/ws", true, Some("http://127.0.0.1:7890")))
        .ok()
        .unwrap();
    assert_eq!(plan.env.len(), 4);
    match plan.route {
        Ok(Route::ViaProxy(ProxyPlan::HttpConnect { proxy_addr, request })) => {
            assert_eq!(proxy_addr, "127.0.0.1:7890");
            assert!(request.starts_with("CONNECT fstream.binance.com:443 HTTP/1.1\r\n"));
        }
        _ => panic!("expected a CONNECT route"),
    }
    let plan = plan_connection(&config("ws://localhost:8080", true, Some("socks5://127.0.0.1:1080")))
        .ok()
        .unwrap();
    match plan.route {
        Ok(Route::ViaProxy(ProxyPlan::Socks5 { proxy_port, target_host, target_port, .. })) => {
            assert_eq!(proxy_port, 1080);
            assert_eq!(target_host, "localhost");
            assert_eq!(target_port, 8080);
        }
        _ => panic!("expected a SOCKS5 route"),
    }
}

#[test]
fn bad_server_url_comes_first() {
    assert!(matches!(
        plan_connection(&config("not a url", true, None)),
        Err(ClientError::InvalidUrl(url::ParseError::RelativeUrlWithoutBase))
    ));
    assert!(matches!(
        plan_connection(&config("wss://x/ws", true, None)),
        Err(ClientError::ProxyAddressMissing)
    ));
}

#[test]
fn proxy_route_errors_keep_the_environment() {
    let plan = plan_connection(&config("wss://x/ws", true, Some("ftp://p:21"))).ok().unwrap();
    assert_eq!(plan.env.len(), 4);
    assert!(matches!(&plan.env[0], EnvAction::SetVar(n, v) if n == "HTTP_PROXY" && v == "ftp://p:21"));
    assert!(matches!(plan.route, Err(ClientError::UnsupportedProxyScheme(_))));

    let plan = plan_connection(&config("wss://x/ws", true, Some("127.0.0.1:7890"))).ok().unwrap();
    assert_eq!(plan.env.len(), 4);
    assert!(matches!(plan.route, Err(ClientError::InvalidUrl(url::ParseError::RelativeUrlWithoutBase))));

    let plan = plan_connection(&config("foo:bar", true, Some("http://p:1"))).ok().unwrap();
    assert_eq!(plan.env.len(), 4);
    match plan.route {
        Err(e @ ClientError::ServerAddressUnknown) => assert_eq!(e.message(), "服务器地址缺少主机或端口"),
        _ => panic!("expected an unknown server address"),
    }
}
