use rustws::config::{
    build_config, connect_timeout_secs, full_stream_names, initial_messages,
    is_binance_api, parse_stream_list, preset_server, preset_servers, proxy_env_plan, resolve_server_url,
    Config, EnvAction, UrlSource,
};
use rustws::error::ClientError;
use rustws::json::{create_binance_api_request, BinanceApiOperation};

const DEFAULT_URL: &str = "wss://fstream.binance.com/ws";

fn config(url: &str, use_proxy: bool, proxy: Option<&str>) -> Config {
    Config {
        server_url: url.to_string(),
        use_proxy,
        proxy_url: proxy.map(|p| p.to_string()),
        auto_shutdown: Some(300),
        symbol: "BNBUSDT".to_string(),
        streams: vec!["@aggTrade".to_string(), "@depth".to_string()],
    }
}

#[test]
fn presets() {
    let info = preset_server("binance_spot").unwrap();
    assert_eq!(info.base_url, "wss://stream.binance.com:9443");
    assert_eq!(info.description, "币安现货WebSocket (需要代理)");
    assert_eq!(preset_server("local").unwrap().base_url, "ws://localhost:8080");
    assert!(preset_server("Binance").is_none());
    let names: Vec<String> = preset_servers().into_iter().map(|(n, _)| n).collect();
    assert_eq!(names, vec!["binance", "binance_spot", "echo", "piesocket", "local"]);
}

#[test]
fn server_url_choice() {
    let (url, source) = resolve_server_url(DEFAULT_URL, "binance");
    assert_eq!(url, "wss://fstream.binance.com/ws");
    assert!(matches!(source, UrlSource::Preset { ref name, .. } if name == "binance"));
    assert_eq!(resolve_server_url(DEFAULT_URL, "binance_spot").0, "wss://stream.binance.com:9443/ws");
    assert_eq!(resolve_server_url(DEFAULT_URL, "echo").0, "wss://echo.websocket.org");
    let (url, source) = resolve_server_url(DEFAULT_URL, "nothing");
    assert_eq!(url, DEFAULT_URL);
    assert!(matches!(source, UrlSource::PresetMissing { .. }));
    let (url, source) = resolve_server_url("ws://127.0.0.1:9001", "echo");
    assert_eq!(url, "ws://127.0.0.1:9001");
    assert!(matches!(source, UrlSource::Explicit));
}

#[test]
fn config_from_command_line_defaults() {
    let (c, _) = build_config(DEFAULT_URL, "binance", "http://127.0.0.1:7890", false, "300", "bnbusdt", "@aggTrade");
    assert_eq!(c.server_url, "wss://fstream.binance.com/ws");
    assert!(c.use_proxy);
    assert_eq!(c.proxy_url.as_deref(), Some("http://127.0.0.1:7890"));
    assert_eq!(c.auto_shutdown, Some(300));
    assert_eq!(c.symbol, "bnbusdt");
    assert_eq!(c.streams, vec!["@aggTrade"]);
}

#[test]
fn config_without_proxy_and_bad_duration() {
    let (c, _) = build_config("wss://echo.websocket.org", "binance", "socks5://h:1", true, "soon", "X", " @a , @b,");
    assert!(!c.use_proxy);
    assert!(c.proxy_url.is_none());
    assert_eq!(c.auto_shutdown, Some(300));
    assert_eq!(c.streams, vec!["@a", "@b", ""]);
    assert_eq!(parse_stream_list("@depth"), vec!["@depth"]);
}

#[test]
fn timeout_text() {
    assert_eq!(connect_timeout_secs("30"), 30);
    assert_eq!(connect_timeout_secs("thirty"), 15);
}

#[test]
fn environment_with_proxy() {
    let plan = proxy_env_plan(&config(DEFAULT_URL, true, Some("http://p:1"))).ok().unwrap();
    let got: Vec<(String, Option<String>)> = plan
        .into_iter()
        .map(|a| match a {
            EnvAction::SetVar(n, v) => (n, Some(v)),
            EnvAction::RemoveVar(n) => (n, None),
        })
        .collect();
    assert_eq!(
        got,
        vec![
            ("HTTP_PROXY".to_string(), Some("http://p:1".to_string())),
            ("HTTPS_PROXY".to_string(), Some("http://p:1".to_string())),
            ("WSS_PROXY".to_string(), Some("http://p:1".to_string())),
            ("NO_PROXY".to_string(), Some("localhost,127.0.0.1,::1".to_string())),
        ]
    );
}

#[test]
fn environment_without_proxy() {
    let plan = proxy_env_plan(&config(DEFAULT_URL, false, Some("http://p:1"))).ok().unwrap();
    assert_eq!(plan.len(), 2);
    assert!(matches!(&plan[0], EnvAction::RemoveVar(n) if n == "HTTP_PROXY"));
    assert!(matches!(&plan[1], EnvAction::RemoveVar(n) if n == "HTTPS_PROXY"));
}

#[test]
fn environment_with_proxy_but_no_address() {
    assert!(matches!(
        proxy_env_plan(&config(DEFAULT_URL, true, None)),
        Err(ClientError::ProxyAddressMissing)
    ));
}

#[test]
fn law_built_config_has_env_plan_on_values() {
    for no_proxy in [false, true] {
        let (c, _) = build_config(DEFAULT_URL, "echo", "http://127.0.0.1:7890", no_proxy, "1", "s", "@x");
        assert!(proxy_env_plan(&c).is_ok());
    }
}

#[test]
fn stream_names_use_lower_case_symbol() {
    let names = full_stream_names("BNBUSDT", &vec!["@aggTrade".to_string(), "@depth@100ms".to_string()]);
    assert_eq!(names, vec!["bnbusdt@aggTrade", "bnbusdt@depth@100ms"]);
    assert_eq!(full_stream_names("ÉTH", &vec!["@x".to_string()]), vec!["éth@x"]);
}

#[test]
fn binance_detection() {
    assert!(is_binance_api("wss://stream.binance.com:9443/ws"));
    assert!(!is_binance_api("wss://echo.websocket.org"));
}

#[test]
fn first_messages_for_binance() {
    let c = config(DEFAULT_URL, false, None);
    let msgs = initial_messages(&c, 10, 11);
    assert_eq!(
        msgs,
        vec![
            r#"{"id":10,"method":"SUBSCRIBE","params":["bnbusdt@aggTrade","bnbusdt@depth"]}"#.to_string(),
            create_binance_api_request(&BinanceApiOperation::ListSubscriptions, 11).unwrap(),
        ]
    );
}

#[test]
fn first_message_for_other_servers() {
    let c = config("wss://echo.websocket.org", false, None);
    assert_eq!(initial_messages(&c, 1, 2), vec!["测试消息"]);
}
