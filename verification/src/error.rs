//! Errors of the client's decision logic.

use vstd::prelude::*;

verus! {

/// Why a connection could not be prepared or made.
pub enum ClientError {
    /// A URL did not parse.
    InvalidUrl(url::ParseError),
    /// The proxy is switched on but no proxy address was given.
    ProxyAddressMissing,
    /// The proxy answered the CONNECT request without a `200`; the field is
    /// its answer as text.
    ProxyRefused(String),
    /// The proxy URL names a scheme other than `http`, `https` or `socks5`.
    UnsupportedProxyScheme(String),
    /// The WebSocket handshake did not finish in time.
    ConnectTimeout,
    /// The server URL names no host, or no port is known for its scheme,
    /// so there is nothing to ask the proxy for.
    ServerAddressUnknown,
}

impl ClientError {
    /// The message shown to the user for this error.
    pub fn message(&self) -> (m: String)
        ensures
            (match self {
                ClientError::ProxyAddressMissing => m@ == "启用了代理但未提供代理地址"@,
                ClientError::ProxyRefused(t) => m@ == "代理服务器拒绝连接: "@ + t@,
                ClientError::UnsupportedProxyScheme(s) => m@ == "不支持的代理协议: "@ + s@,
                ClientError::ConnectTimeout => m@ == "连接超时"@,
                ClientError::ServerAddressUnknown => m@ == "服务器地址缺少主机或端口"@,
                ClientError::InvalidUrl(e) => vstd::string::to_string_from_display_ensures::<
                    url::ParseError,
                >(e, m),
            }),
    {
        match self {
            ClientError::InvalidUrl(e) => e.to_string(),
            ClientError::ProxyAddressMissing => String::from_str("启用了代理但未提供代理地址"),
            ClientError::ProxyRefused(t) => {
                let mut m = String::from_str("代理服务器拒绝连接: ");
                m.append(t.as_str());
                m
            },
            ClientError::UnsupportedProxyScheme(s) => {
                let mut m = String::from_str("不支持的代理协议: ");
                m.append(s.as_str());
                m
            },
            ClientError::ConnectTimeout => String::from_str("连接超时"),
            ClientError::ServerAddressUnknown => String::from_str("服务器地址缺少主机或端口"),
        }
    }
}

} // verus!
