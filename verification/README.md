# rustws

Verified decision logic of a small WebSocket toolkit: a Binance stream
client, a plain echo client and an echo server.

- `src/` is the library, checked by Verus:
  - `text.rs`: decimal numerals and their parsing, search, trimming, splitting;
  - `json.rs`: Binance API request frames;
  - `error.rs`: the client's errors and their messages;
  - `urls.rs`: URLs as the `url` crate parses them, and whether a URL's
    text writes a port;
  - `proxy.rs`: reaching a server through an HTTP(S) or SOCKS5 proxy;
  - `route.rs`: the environment and the route (direct or through the proxy)
    planned before the handshake;
  - `config.rs`: preset servers, command-line settings, proxy environment,
    first messages;
  - `session.rs`: the receiver, pinger and main-task decisions of a session;
  - `echo.rs`: the echo client and server decisions, and the upgrade request.
- `app/` runs the network I/O, the async tasks and the command line around it:
  `rustws` (Binance client), `rustws server`, `rustws echo-client`,
  `rustws handshake`.
- `tests/` exercises the library on concrete values.
