//! The client's configuration: preset servers, the settings read from the
//! command line, the proxy environment and the first messages to send.

use vstd::prelude::*;
use crate::error::ClientError;
use crate::json::{create_binance_api_request, request_text, ApiOperationView, BinanceApiOperation};
use crate::text::{
    decimal, law_parse_decimal_roundtrip,
    contains_text, has_prefix, parse_u64_or, parse_u64_spec, split_spec, split_text,
    text_contains, text_eq, text_starts_with, trim, trim_spec, views,
};
use crate::urls::opt_view;

verus! {

/// The server URL the client uses unless told otherwise.
pub open spec fn default_url() -> Seq<char> {
    "wss://fstream.binance.com/ws"@
}

/// A preset WebSocket server.
pub struct WsServerInfo {
    pub base_url: String,
    pub description: String,
}

impl View for WsServerInfo {
    type V = (Seq<char>, Seq<char>);

    open spec fn view(&self) -> (Seq<char>, Seq<char>) {
        (self.base_url@, self.description@)
    }
}

/// The preset servers, each as name, base URL and description.
pub open spec fn preset_table() -> Seq<(Seq<char>, Seq<char>, Seq<char>)> {
    seq![
        ("binance"@, "wss://fstream.binance.com"@, "币安期货WebSocket (需要代理)"@),
        ("binance_spot"@, "wss://stream.binance.com:9443"@, "币安现货WebSocket (需要代理)"@),
        ("echo"@, "wss://echo.websocket.org"@, "Echo测试服务器"@),
        (
            "piesocket"@,
            "wss://demo.piesocket.com/v3/channel_1?api_key=VCXCEuvhGcBDP7XhiJJUDvR1e1D3eiVjgZ9VRiaV"@,
            "PieSocket测试服务器"@,
        ),
        ("local"@, "ws://localhost:8080"@, "本地测试服务器"@),
    ]
}

/// The preset of the given name, as base URL and description.
pub open spec fn preset_lookup(name: Seq<char>) -> Option<(Seq<char>, Seq<char>)> {
    if exists|i: int| 0 <= i < preset_table().len() && #[trigger] preset_table()[i].0 == name {
        let i = choose|i: int| 0 <= i < preset_table().len() && #[trigger] preset_table()[i].0 == name;
        Some((preset_table()[i].1, preset_table()[i].2))
    } else {
        None
    }
}

fn preset_entry(i: usize) -> (e: (String, WsServerInfo))
    requires
        i < 5,
    ensures
        e.0@ == preset_table()[i as int].0,
        e.1@ == (preset_table()[i as int].1, preset_table()[i as int].2),
{
    let (name, base, description) = if i == 0 {
        ("binance", "wss://fstream.binance.com", "币安期货WebSocket (需要代理)")
    } else if i == 1 {
        ("binance_spot", "wss://stream.binance.com:9443", "币安现货WebSocket (需要代理)")
    } else if i == 2 {
        ("echo", "wss://echo.websocket.org", "Echo测试服务器")
    } else if i == 3 {
        (
            "piesocket",
            "wss://demo.piesocket.com/v3/channel_1?api_key=VCXCEuvhGcBDP7XhiJJUDvR1e1D3eiVjgZ9VRiaV",
            "PieSocket测试服务器",
        )
    } else {
        ("local", "ws://localhost:8080", "本地测试服务器")
    };
    (
        String::from_str(name),
        WsServerInfo { base_url: String::from_str(base), description: String::from_str(description) },
    )
}

/// All preset servers with their names, in table order.
pub fn preset_servers() -> (v: Vec<(String, WsServerInfo)>)
    ensures
        v@.len() == preset_table().len(),
        forall|i: int|
            0 <= i < v@.len() ==> (#[trigger] v@[i]).0@ == preset_table()[i].0 && v@[i].1@ == (
                preset_table()[i].1,
                preset_table()[i].2,
            ),
{
    let mut v: Vec<(String, WsServerInfo)> = Vec::new();
    let mut i: usize = 0;
    while i < 5
        invariant
            i <= 5,
            v@.len() == i,
            forall|k: int|
                0 <= k < i ==> (#[trigger] v@[k]).0@ == preset_table()[k].0 && v@[k].1@ == (
                    preset_table()[k].1,
                    preset_table()[k].2,
                ),
        decreases 5 - i,
    {
        v.push(preset_entry(i));
        i = i + 1;
    }
    v
}

proof fn lemma_preset_names_distinct()
    ensures
        forall|i: int, j: int|
            0 <= i < j < preset_table().len() ==> #[trigger] preset_table()[i].0 != #[trigger] preset_table()[j].0,
{
    reveal_strlit("binance");
    reveal_strlit("binance_spot");
    reveal_strlit("echo");
    reveal_strlit("piesocket");
    reveal_strlit("local");
    assert(preset_table()[0].0.len() != preset_table()[1].0.len());
    assert(preset_table()[0].0.len() != preset_table()[2].0.len());
    assert(preset_table()[0].0.len() != preset_table()[3].0.len());
    assert(preset_table()[0].0.len() != preset_table()[4].0.len());
    assert(preset_table()[1].0.len() != preset_table()[2].0.len());
    assert(preset_table()[1].0.len() != preset_table()[3].0.len());
    assert(preset_table()[1].0.len() != preset_table()[4].0.len());
    assert(preset_table()[2].0.len() != preset_table()[3].0.len());
    assert(preset_table()[2].0.len() != preset_table()[4].0.len());
    assert(preset_table()[3].0.len() != preset_table()[4].0.len());
}

/// Looks up a preset server by name.
pub fn preset_server(name: &str) -> (r: Option<WsServerInfo>)
    ensures
        match preset_lookup(name@) {
            Some(p) => r matches Some(info) && info@ == p,
            None => r is None,
        },
{
    let mut i: usize = 0;
    while i < 5
        invariant
            i <= 5,
            forall|k: int| 0 <= k < i ==> #[trigger] preset_table()[k].0 != name@,
        decreases 5 - i,
    {
        let (n, info) = preset_entry(i);
        if text_eq(n.as_str(), name) {
            assert(preset_table()[i as int].0 == name@);
            proof {
                lemma_preset_names_distinct();
                let j = choose|j: int| 0 <= j < preset_table().len() && #[trigger] preset_table()[j].0 == name@;
                assert(j == i);
            }
            return Some(info);
        }
        i = i + 1;
    }
    None
}

/// Where the server URL came from.
pub enum UrlSource {
    /// Given on the command line.
    Explicit,
    /// Taken from the named preset, with its description.
    Preset { name: String, description: String },
    /// The default URL, because the named preset does not exist.
    PresetMissing { name: String },
}

/// The server URL for the command-line URL and preset name: the URL as
/// given unless it is the default, then the preset's base URL (with `/ws`
/// appended for the presets whose names begin with `binance`), and the
/// default URL when no preset has that name.
pub open spec fn resolved_url(url: Seq<char>, preset: Seq<char>) -> Seq<char> {
    if url == default_url() {
        match preset_lookup(preset) {
            Some(p) => if has_prefix(preset, "binance"@) {
                p.0 + "/ws"@
            } else {
                p.0
            },
            None => url,
        }
    } else {
        url
    }
}

/// Whether `src` tells truly where the URL for these command-line values
/// came from.
pub open spec fn url_source_spec(url: Seq<char>, preset: Seq<char>, src: UrlSource) -> bool {
    match src {
        UrlSource::Explicit => url != default_url(),
        UrlSource::Preset { name, description } => {
            &&& url == default_url()
            &&& name@ == preset
            &&& preset_lookup(preset) matches Some(p)
            &&& description@ == p.1
        },
        UrlSource::PresetMissing { name } => {
            &&& url == default_url()
            &&& name@ == preset
            &&& preset_lookup(preset) is None
        },
    }
}

/// Chooses the server URL from the command-line URL and preset name.
pub fn resolve_server_url(url: &str, preset: &str) -> (r: (String, UrlSource))
    ensures
        r.0@ == resolved_url(url@, preset@),
        url_source_spec(url@, preset@, r.1),
        url@ != "wss://fstream.binance.com/ws"@ ==> r.0@ == url@ && r.1 is Explicit,
{
    if text_eq(url, "wss://fstream.binance.com/ws") {
        match preset_server(preset) {
            Some(info) => {
                let mut chosen = info.base_url.clone();
                if text_starts_with(preset, "binance") {
                    chosen.append("/ws");
                }
                (chosen, UrlSource::Preset { name: String::from_str(preset), description: info.description })
            },
            None => (String::from_str(url), UrlSource::PresetMissing { name: String::from_str(preset) }),
        }
    } else {
        (String::from_str(url), UrlSource::Explicit)
    }
}

/// The client's settings.
pub struct Config {
    /// The WebSocket server URL.
    pub server_url: String,
    /// Whether to go through a proxy.
    pub use_proxy: bool,
    /// The proxy URL.
    pub proxy_url: Option<String>,
    /// Seconds after which the client shuts down by itself.
    pub auto_shutdown: Option<u64>,
    /// The trading pair, such as `bnbusdt`.
    pub symbol: String,
    /// The stream suffixes to subscribe to, such as `@aggTrade`.
    pub streams: Vec<String>,
}

/// The mathematical form of the settings.
pub struct ConfigView {
    pub server_url: Seq<char>,
    pub use_proxy: bool,
    pub proxy_url: Option<Seq<char>>,
    pub auto_shutdown: Option<u64>,
    pub symbol: Seq<char>,
    pub streams: Seq<Seq<char>>,
}

impl View for Config {
    type V = ConfigView;

    open spec fn view(&self) -> ConfigView {
        ConfigView {
            server_url: self.server_url@,
            use_proxy: self.use_proxy,
            proxy_url: opt_view(self.proxy_url),
            auto_shutdown: self.auto_shutdown,
            symbol: self.symbol@,
            streams: views(self.streams@),
        }
    }
}

/// A number from the command line, or `default` when the text is not one.
pub open spec fn number_or(text: Seq<char>, default: u64) -> u64 {
    match parse_u64_spec(text) {
        Some(v) => v,
        None => default,
    }
}

/// The stream list from the command line: split at commas, each piece
/// trimmed.
pub open spec fn stream_list(text: Seq<char>) -> Seq<Seq<char>> {
    split_spec(text, ',').map_values(|p: Seq<char>| trim_spec(p))
}

/// Splits the comma-separated stream list and trims each piece.
pub fn parse_stream_list(text: &str) -> (v: Vec<String>)
    ensures
        views(v@) == stream_list(text@),
{
    let parts = split_text(text, ',');
    let mut v: Vec<String> = Vec::new();
    let mut i: usize = 0;
    while i < parts.len()
        invariant
            i <= parts@.len(),
            views(parts@) == split_spec(text@, ','),
            v@.len() == i,
            forall|k: int| 0 <= k < i ==> (#[trigger] v@[k])@ == trim_spec(parts@[k]@),
        decreases parts.len() - i,
    {
        let t = trim(parts[i].as_str());
        v.push(t);
        i = i + 1;
    }
    assert(views(v@) =~= stream_list(text@)) by {
        assert forall|k: int| 0 <= k < v@.len() implies views(v@)[k] == stream_list(text@)[k] by {
            assert(views(parts@)[k] == parts@[k]@);
        }
    }
    v
}

/// The settings as the command line gives them.
pub open spec fn config_spec(
    url: Seq<char>,
    preset: Seq<char>,
    proxy: Seq<char>,
    no_proxy: bool,
    duration: Seq<char>,
    symbol: Seq<char>,
    streams: Seq<char>,
) -> ConfigView {
    ConfigView {
        server_url: resolved_url(url, preset),
        use_proxy: !no_proxy,
        proxy_url: if no_proxy { None } else { Some(proxy) },
        auto_shutdown: Some(number_or(duration, 300)),
        symbol,
        streams: stream_list(streams),
    }
}

/// Builds the settings from the command-line values: the server URL as
/// `resolve_server_url` chooses it, the proxy unless `no_proxy`, the run
/// time in seconds (300 unless the text is a number), the symbol, and the
/// trimmed comma-separated streams. Also says where the URL came from.
pub fn build_config(
    url: &str,
    preset: &str,
    proxy: &str,
    no_proxy: bool,
    duration: &str,
    symbol: &str,
    streams: &str,
) -> (r: (Config, UrlSource))
    ensures
        r.0@ == config_spec(url@, preset@, proxy@, no_proxy, duration@, symbol@, streams@),
        url_source_spec(url@, preset@, r.1),
{
    let (server_url, source) = resolve_server_url(url, preset);
    let config = Config {
        server_url,
        use_proxy: !no_proxy,
        proxy_url: if no_proxy { None } else { Some(String::from_str(proxy)) },
        auto_shutdown: Some(parse_u64_or(duration, 300)),
        symbol: String::from_str(symbol),
        streams: parse_stream_list(streams),
    };
    (config, source)
}

/// The connection timeout in seconds: the number given, or 15.
pub fn connect_timeout_secs(text: &str) -> (r: u64)
    ensures
        r == number_or(text@, 15),
{
    parse_u64_or(text, 15)
}


/// A change to the process environment.
pub enum EnvAction {
    /// Set the variable to the value.
    SetVar(String, String),
    /// Remove the variable.
    RemoveVar(String),
}

/// The mathematical form of an environment change.
pub enum EnvActionView {
    SetVar(Seq<char>, Seq<char>),
    RemoveVar(Seq<char>),
}

impl View for EnvAction {
    type V = EnvActionView;

    open spec fn view(&self) -> EnvActionView {
        match self {
            EnvAction::SetVar(n, v) => EnvActionView::SetVar(n@, v@),
            EnvAction::RemoveVar(n) => EnvActionView::RemoveVar(n@),
        }
    }
}

/// The views of a sequence of environment changes.
pub open spec fn env_views(v: Seq<EnvAction>) -> Seq<EnvActionView> {
    v.map_values(|a: EnvAction| a@)
}

/// The environment the connection runs in: with a proxy, the three proxy
/// variables point at it and local addresses bypass it; without, the HTTP
/// proxy variables are cleared. `None` when the proxy has no address.
pub open spec fn env_plan_spec(cfg: ConfigView) -> Option<Seq<EnvActionView>> {
    if cfg.use_proxy {
        match cfg.proxy_url {
            Some(p) => Some(
                seq![
                    EnvActionView::SetVar("HTTP_PROXY"@, p),
                    EnvActionView::SetVar("HTTPS_PROXY"@, p),
                    EnvActionView::SetVar("WSS_PROXY"@, p),
                    EnvActionView::SetVar("NO_PROXY"@, "localhost,127.0.0.1,::1"@),
                ],
            ),
            None => None,
        }
    } else {
        Some(seq![EnvActionView::RemoveVar("HTTP_PROXY"@), EnvActionView::RemoveVar("HTTPS_PROXY"@)])
    }
}

/// The environment changes to make before connecting.
pub fn proxy_env_plan(cfg: &Config) -> (r: Result<Vec<EnvAction>, ClientError>)
    ensures
        match env_plan_spec(cfg@) {
            Some(plan) => r matches Ok(v) && env_views(v@) == plan,
            None => r matches Err(ClientError::ProxyAddressMissing),
        },
{
    let mut v: Vec<EnvAction> = Vec::new();
    if cfg.use_proxy {
        match &cfg.proxy_url {
            Some(p) => {
                v.push(EnvAction::SetVar(String::from_str("HTTP_PROXY"), p.clone()));
                v.push(EnvAction::SetVar(String::from_str("HTTPS_PROXY"), p.clone()));
                v.push(EnvAction::SetVar(String::from_str("WSS_PROXY"), p.clone()));
                v.push(
                    EnvAction::SetVar(String::from_str("NO_PROXY"), String::from_str("localhost,127.0.0.1,::1")),
                );
            },
            None => {
                return Err(ClientError::ProxyAddressMissing);
            },
        }
    } else {
        v.push(EnvAction::RemoveVar(String::from_str("HTTP_PROXY")));
        v.push(EnvAction::RemoveVar(String::from_str("HTTPS_PROXY")));
    }
    assert(env_views(v@) =~= env_plan_spec(cfg@).unwrap());
    Ok(v)
}

/// Settings built from the command line always name a proxy address when
/// they switch the proxy on, so preparing the environment never fails on
/// them.
pub proof fn law_built_config_has_env_plan(
    url: Seq<char>,
    preset: Seq<char>,
    proxy: Seq<char>,
    no_proxy: bool,
    duration: Seq<char>,
    symbol: Seq<char>,
    streams: Seq<char>,
)
    ensures
        env_plan_spec(config_spec(url, preset, proxy, no_proxy, duration, symbol, streams)) is Some,
{
}

/// What `str::to_lowercase` makes of a text.
pub uninterp spec fn unicode_lowercase(s: Seq<char>) -> Seq<char>;

/// Calls `str::to_lowercase`. The contract only names the result: it is a
/// function of the text alone.
#[verifier::external_body]
fn lowercase(s: &str) -> (r: String)
    ensures
        r@ == unicode_lowercase(s@),
{
    s.to_lowercase()
}

/// The full stream names: the symbol in lower case before each suffix.
pub open spec fn full_streams_spec(symbol: Seq<char>, streams: Seq<Seq<char>>) -> Seq<Seq<char>> {
    streams.map_values(|st: Seq<char>| unicode_lowercase(symbol) + st)
}

/// Joins the lower-cased symbol with each stream suffix.
pub fn full_stream_names(symbol: &str, streams: &Vec<String>) -> (v: Vec<String>)
    ensures
        views(v@) == full_streams_spec(symbol@, views(streams@)),
{
    let lower = lowercase(symbol);
    let mut v: Vec<String> = Vec::new();
    let mut i: usize = 0;
    while i < streams.len()
        invariant
            i <= streams@.len(),
            lower@ == unicode_lowercase(symbol@),
            v@.len() == i,
            forall|k: int| 0 <= k < i ==> (#[trigger] v@[k])@ == lower@ + streams@[k]@,
        decreases streams.len() - i,
    {
        let mut name = lower.clone();
        name.append(streams[i].as_str());
        v.push(name);
        i = i + 1;
    }
    assert(views(v@) =~= full_streams_spec(symbol@, views(streams@)));
    v
}

/// Whether the server is Binance's: its URL mentions `binance.com`.
pub open spec fn is_binance_spec(url: Seq<char>) -> bool {
    contains_text(url, "binance.com"@)
}

/// Whether the server is Binance's.
pub fn is_binance_api(url: &str) -> (b: bool)
    ensures
        b == is_binance_spec(url@),
{
    text_contains(url, "binance.com")
}

/// The first messages to send once connected: for Binance, a subscription
/// to the full stream names and then a request for the subscription list,
/// with the given request ids; otherwise one test message.
pub open spec fn initial_messages_spec(cfg: ConfigView, id_subscribe: i64, id_list: i64) -> Seq<Seq<char>> {
    if is_binance_spec(cfg.server_url) {
        seq![
            request_text(ApiOperationView::Subscribe(full_streams_spec(cfg.symbol, cfg.streams)), id_subscribe),
            request_text(ApiOperationView::ListSubscriptions, id_list),
        ]
    } else {
        seq!["测试消息"@]
    }
}

/// The first messages to send, with the given request ids.
pub fn initial_messages(cfg: &Config, id_subscribe: i64, id_list: i64) -> (v: Vec<String>)
    ensures
        views(v@) == initial_messages_spec(cfg@, id_subscribe, id_list),
{
    let mut v: Vec<String> = Vec::new();
    if is_binance_api(cfg.server_url.as_str()) {
        let full = full_stream_names(cfg.symbol.as_str(), &cfg.streams);
        let op = BinanceApiOperation::Subscribe(full);
        match create_binance_api_request(&op, id_subscribe) {
            Some(t) => v.push(t),
            None => {},
        }
        match create_binance_api_request(&BinanceApiOperation::ListSubscriptions, id_list) {
            Some(t) => v.push(t),
            None => {},
        }
    } else {
        v.push(String::from_str("测试消息"));
    }
    assert(views(v@) =~= initial_messages_spec(cfg@, id_subscribe, id_list));
    v
}

/// A URL other than the default one is used exactly as given, whatever the
/// preset; only the default URL gives way to a preset.
pub proof fn law_explicit_url_is_kept(url: Seq<char>, preset: Seq<char>)
    ensures
        url != "wss://fstream.binance.com/ws"@ ==> resolved_url(url, preset) == url,
        url != "wss://fstream.binance.com/ws"@ ==> url_source_spec(url, preset, UrlSource::Explicit),
{
}

/// The run time is the number the duration text gives: the number `n`
/// itself for its decimal numeral, any number the text reads as, and 300
/// only when the text is no number.
pub proof fn law_duration_is_the_given_number(
    n: u64,
    url: Seq<char>,
    preset: Seq<char>,
    proxy: Seq<char>,
    no_proxy: bool,
    duration: Seq<char>,
    symbol: Seq<char>,
    streams: Seq<char>,
)
    ensures
        config_spec(url, preset, proxy, no_proxy, decimal(n as nat), symbol, streams).auto_shutdown == Some(n),
        parse_u64_spec(duration) matches Some(v) ==> config_spec(
            url,
            preset,
            proxy,
            no_proxy,
            duration,
            symbol,
            streams,
        ).auto_shutdown == Some(v),
        parse_u64_spec(duration) is None ==> config_spec(
            url,
            preset,
            proxy,
            no_proxy,
            duration,
            symbol,
            streams,
        ).auto_shutdown == Some(300u64),
{
    law_parse_decimal_roundtrip(n);
}

/// The settings follow the command line: the proxy is on exactly when
/// `--no-proxy` is not given, and then its address is the one given; the
/// symbol is kept as given; the streams are the comma-separated pieces,
/// trimmed, one per piece.
pub proof fn law_settings_follow_command_line(
    url: Seq<char>,
    preset: Seq<char>,
    proxy: Seq<char>,
    no_proxy: bool,
    duration: Seq<char>,
    symbol: Seq<char>,
    streams: Seq<char>,
)
    ensures
        ({
            let c = config_spec(url, preset, proxy, no_proxy, duration, symbol, streams);
            &&& c.use_proxy == !no_proxy
            &&& c.proxy_url == (if no_proxy { None } else { Some(proxy) })
            &&& c.symbol == symbol
            &&& c.server_url == resolved_url(url, preset)
            &&& c.streams.len() == split_spec(streams, ',').len()
            &&& forall|i: int| 0 <= i < c.streams.len() ==> #[trigger] c.streams[i] == trim_spec(split_spec(streams, ',')[i])
        }),
{
}

/// With the default URL, a known preset gives its base URL, followed by
/// `/ws` exactly when the preset's name begins with `binance`; an unknown
/// preset leaves the default URL.
pub proof fn law_preset_url(preset: Seq<char>)
    ensures
        preset_lookup(preset) matches Some(p) ==> resolved_url(default_url(), preset) == if has_prefix(
            preset,
            "binance"@,
        ) {
            p.0 + "/ws"@
        } else {
            p.0
        },
        preset_lookup(preset) is None ==> resolved_url(default_url(), preset) == default_url(),
{
}

/// With the proxy on, the three proxy variables all point at the given
/// proxy and local addresses bypass it; with the proxy off, the two HTTP
/// proxy variables are cleared and nothing is set.
pub proof fn law_env_points_at_proxy(cfg: ConfigView)
    ensures
        cfg.use_proxy && cfg.proxy_url is Some ==> env_plan_spec(cfg) == Some(
            seq![
                EnvActionView::SetVar("HTTP_PROXY"@, cfg.proxy_url.unwrap()),
                EnvActionView::SetVar("HTTPS_PROXY"@, cfg.proxy_url.unwrap()),
                EnvActionView::SetVar("WSS_PROXY"@, cfg.proxy_url.unwrap()),
                EnvActionView::SetVar("NO_PROXY"@, "localhost,127.0.0.1,::1"@),
            ],
        ),
        !cfg.use_proxy ==> env_plan_spec(cfg) == Some(
            seq![EnvActionView::RemoveVar("HTTP_PROXY"@), EnvActionView::RemoveVar("HTTPS_PROXY"@)],
        ),
        cfg.use_proxy && cfg.proxy_url is None ==> env_plan_spec(cfg) is None,
{
}

} // verus!
