//! Decision logic and message formats of a small WebSocket toolkit: a
//! Binance stream client, a plain echo client and an echo server.

pub mod text;
pub mod json;
pub mod error;
pub mod urls;
pub mod proxy;
pub mod config;
pub mod route;
pub mod session;
pub mod echo;
