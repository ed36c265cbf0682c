//! How the client reaches its server: the environment to set and the
//! route, straight to the server or through the proxy's plan.

use vstd::prelude::*;
use crate::config::{env_plan_spec, env_views, proxy_env_plan, Config, ConfigView, EnvAction};
use crate::error::ClientError;
use crate::proxy::{proxy_connection_plan, proxy_plan_outcome, ProxyPlan};
use crate::urls::{parse_url_parts, url_components};

verus! {

/// The way to the server.
pub enum Route {
    /// Connect to the server itself.
    Direct,
    /// Connect through the proxy as the plan says, then hold the WebSocket
    /// handshake over that connection.
    ViaProxy(ProxyPlan),
}

/// Everything to do before the WebSocket handshake.
pub struct ConnectionPlan {
    /// The environment changes, in order; they are made whatever the route.
    pub env: Vec<EnvAction>,
    /// The way to the server, or why there is none through the proxy.
    pub route: Result<Route, ClientError>,
}

/// What the route through the proxy is for the settings and the server
/// URL's parts: the proxy's plan for the server's host and port (the port
/// written, or the scheme's default), or the error planning through the
/// proxy gives, or an unknown server address when the URL has no host or
/// no port is known for its scheme.
pub open spec fn proxy_route_outcome(
    proxy_url: Seq<char>,
    server: (Seq<char>, Option<Seq<char>>, Option<u16>, Option<u16>),
    route: Result<Route, ClientError>,
) -> bool {
    if server.1 is Some && server.3 is Some {
        match route {
            Ok(r) => r matches Route::ViaProxy(plan) && proxy_plan_outcome(
                proxy_url,
                server.1.unwrap(),
                server.3.unwrap(),
                Ok::<ProxyPlan, ClientError>(plan),
            ),
            Err(e) => proxy_plan_outcome(
                proxy_url,
                server.1.unwrap(),
                server.3.unwrap(),
                Err::<ProxyPlan, ClientError>(e),
            ),
        }
    } else {
        route matches Err(ClientError::ServerAddressUnknown)
    }
}

/// What planning the connection gives for the settings: the server URL's
/// parse error first, then a missing proxy address; otherwise the
/// environment changes, always, and the route: direct without a proxy,
/// through it as `proxy_route_outcome` says with one.
pub open spec fn connection_plan_outcome(cfg: ConfigView, r: Result<ConnectionPlan, ClientError>) -> bool {
    match url_components(cfg.server_url) {
        Err(e) => r matches Err(ClientError::InvalidUrl(x)) && x == e,
        Ok(server) => match env_plan_spec(cfg) {
            None => r matches Err(ClientError::ProxyAddressMissing),
            Some(env) => match r {
                Ok(p) => {
                    &&& env_views(p.env@) == env
                    &&& if cfg.use_proxy {
                        proxy_route_outcome(cfg.proxy_url.unwrap(), server, p.route)
                    } else {
                        p.route matches Ok(Route::Direct)
                    }
                },
                Err(_) => false,
            },
        },
    }
}

/// Plans the connection: checks the server URL, lists the environment
/// changes and, when the proxy is on, plans the route through it.
pub fn plan_connection(cfg: &Config) -> (r: Result<ConnectionPlan, ClientError>)
    ensures
        connection_plan_outcome(cfg@, r),
{
    let server = match parse_url_parts(cfg.server_url.as_str()) {
        Ok(p) => p,
        Err(e) => {
            return Err(ClientError::InvalidUrl(e));
        },
    };
    let env = match proxy_env_plan(cfg) {
        Ok(v) => v,
        Err(e) => {
            return Err(e);
        },
    };
    if !cfg.use_proxy {
        return Ok(ConnectionPlan { env, route: Ok(Route::Direct) });
    }
    let proxy = match &cfg.proxy_url {
        Some(p) => p,
        None => {
            return Err(ClientError::ProxyAddressMissing);
        },
    };
    let route = match (&server.host, server.known_port) {
        (Some(host), Some(port)) => match proxy_connection_plan(proxy.as_str(), host.as_str(), port) {
            Ok(plan) => Ok(Route::ViaProxy(plan)),
            Err(e) => Err(e),
        },
        _ => Err(ClientError::ServerAddressUnknown),
    };
    Ok(ConnectionPlan { env, route })
}

} // verus!
