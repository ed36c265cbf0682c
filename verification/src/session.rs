//! The decisions of a running WebSocket session: what the Binance client's
//! receiver, keep-alive pinger and main task do on each event.

use vstd::prelude::*;
use crate::config::Config;
use crate::urls::opt_view;

verus! {

/// A WebSocket message, as the session logic reads it.
pub enum WsMessage {
    Text(String),
    Binary(Vec<u8>),
    Ping(Vec<u8>),
    Pong(Vec<u8>),
    /// A close frame; its payload plays no part here.
    Close,
    /// A raw frame.
    Frame,
}

/// The mathematical form of a message.
pub enum WsMessageView {
    Text(Seq<char>),
    Binary(Seq<u8>),
    Ping(Seq<u8>),
    Pong(Seq<u8>),
    Close,
    Frame,
}

impl View for WsMessage {
    type V = WsMessageView;

    open spec fn view(&self) -> WsMessageView {
        match self {
            WsMessage::Text(t) => WsMessageView::Text(t@),
            WsMessage::Binary(b) => WsMessageView::Binary(b@),
            WsMessage::Ping(b) => WsMessageView::Ping(b@),
            WsMessage::Pong(b) => WsMessageView::Pong(b@),
            WsMessage::Close => WsMessageView::Close,
            WsMessage::Frame => WsMessageView::Frame,
        }
    }
}

/// What the receiver got from the connection.
pub enum Incoming {
    /// A message.
    Message(WsMessage),
    /// Reading failed.
    Failed,
    /// The stream of messages ended.
    Ended,
}

/// The mathematical form of what the receiver got.
pub enum IncomingView {
    Message(WsMessageView),
    Failed,
    Ended,
}

impl View for Incoming {
    type V = IncomingView;

    open spec fn view(&self) -> IncomingView {
        match self {
            Incoming::Message(m) => IncomingView::Message(m@),
            Incoming::Failed => IncomingView::Failed,
            Incoming::Ended => IncomingView::Ended,
        }
    }
}

/// What a text message holds.
#[derive(PartialEq, Eq, Structural)]
pub enum TextKind {
    /// JSON with a `result` or `id` member: an answer to a request.
    ApiResponse,
    /// Other JSON: stream data.
    Data,
    /// Not JSON.
    NotJson,
}

/// Whether `key` is a member of the JSON value `text` holds, as
/// `serde_json::from_str::<Value>` followed by `Value::get` decides it;
/// `None` when the text is not JSON.
pub uninterp spec fn json_member_present(text: Seq<char>, key: Seq<char>) -> Option<bool>;

/// Parses the text with `serde_json::from_str::<serde_json::Value>` and asks
/// the value for the member with `Value::get`. The contract only names the
/// outcome: it is a function of the text and the key alone.
#[verifier::external_body]
fn json_member_probe(text: &str, key: &str) -> (r: Option<bool>)
    ensures
        r == json_member_present(text@, key@),
{
    match serde_json::from_str::<serde_json::Value>(text) {
        Ok(v) => Some(v.get(key).is_some()),
        Err(_) => None,
    }
}

/// The kind of a text message, from what the JSON reader says of its
/// `result` and `id` members.
pub open spec fn text_kind_spec(result_member: Option<bool>, id_member: Option<bool>) -> TextKind {
    match result_member {
        None => TextKind::NotJson,
        Some(has_result) => if has_result || id_member == Some(true) {
            TextKind::ApiResponse
        } else {
            TextKind::Data
        },
    }
}

/// The kind of a text message.
pub open spec fn text_kind_of(text: Seq<char>) -> TextKind {
    text_kind_spec(json_member_present(text, "result"@), json_member_present(text, "id"@))
}

/// Tells API answers, stream data and non-JSON text apart.
pub fn classify_text(text: &str) -> (k: TextKind)
    ensures
        k == text_kind_of(text@),
{
    match json_member_probe(text, "result") {
        None => TextKind::NotJson,
        Some(has_result) => {
            if has_result {
                TextKind::ApiResponse
            } else {
                match json_member_probe(text, "id") {
                    Some(true) => TextKind::ApiResponse,
                    _ => TextKind::Data,
                }
            }
        },
    }
}

/// The receiver's state: how many stream data messages it has seen.
pub struct ReceiverState {
    pub message_count: u64,
}

/// What to tell the user about a message.
pub enum Report {
    /// An answer to a request, shown whole.
    ApiResponse(String),
    /// Every tenth data message, with the count so far.
    DataProgress { count: u64, text: String },
    /// A data message that is not shown.
    Quiet,
    /// Text that is not JSON.
    PlainText(String),
    /// Binary data of the given length.
    Binary(usize),
    /// A ping, answered with a pong.
    PingReceived,
    /// A pong.
    PongReceived,
    /// Any other message.
    Other,
}

/// The mathematical form of a report.
pub enum ReportView {
    ApiResponse(Seq<char>),
    DataProgress { count: u64, text: Seq<char> },
    Quiet,
    PlainText(Seq<char>),
    Binary(nat),
    PingReceived,
    PongReceived,
    Other,
}

impl View for Report {
    type V = ReportView;

    open spec fn view(&self) -> ReportView {
        match self {
            Report::ApiResponse(t) => ReportView::ApiResponse(t@),
            Report::DataProgress { count, text } => ReportView::DataProgress { count: *count, text: text@ },
            Report::Quiet => ReportView::Quiet,
            Report::PlainText(t) => ReportView::PlainText(t@),
            Report::Binary(n) => ReportView::Binary(*n as nat),
            Report::PingReceived => ReportView::PingReceived,
            Report::PongReceived => ReportView::PongReceived,
            Report::Other => ReportView::Other,
        }
    }
}

/// What the receiver does next.
pub enum ReceiveAction {
    /// Leave the receive loop; when `disconnected`, first record that the
    /// connection is gone.
    Stop { disconnected: bool },
    /// Report the message, answer with a pong carrying `pong` when there is
    /// one (a failed answer ends the loop as a lost connection and a
    /// successful one restarts the pong timer), and restart the pong timer
    /// when `pong_seen`.
    Handle { report: Report, pong: Option<Vec<u8>>, pong_seen: bool },
}

/// The mathematical form of a receive action.
pub enum ReceiveActionView {
    Stop { disconnected: bool },
    Handle { report: ReportView, pong: Option<Seq<u8>>, pong_seen: bool },
}

impl View for ReceiveAction {
    type V = ReceiveActionView;

    open spec fn view(&self) -> ReceiveActionView {
        match self {
            ReceiveAction::Stop { disconnected } => ReceiveActionView::Stop { disconnected: *disconnected },
            ReceiveAction::Handle { report, pong, pong_seen } => ReceiveActionView::Handle {
                report: report@,
                pong: match pong {
                    Some(p) => Some(p@),
                    None => None,
                },
                pong_seen: *pong_seen,
            },
        }
    }
}

/// One step of the receiver: a shutdown request ends the loop first; the
/// end of the stream ends it; a read error or a close frame ends it and
/// marks the connection lost; a ping is answered with a pong holding the
/// same data; a data message raises the count and every tenth is shown.
pub open spec fn receive_spec(count: u64, shutdown: bool, incoming: IncomingView, kind: TextKind) -> (
    u64,
    ReceiveActionView,
) {
    if shutdown {
        (count, ReceiveActionView::Stop { disconnected: false })
    } else {
        match incoming {
            IncomingView::Ended => (count, ReceiveActionView::Stop { disconnected: false }),
            IncomingView::Failed => (count, ReceiveActionView::Stop { disconnected: true }),
            IncomingView::Message(m) => match m {
                WsMessageView::Text(t) => match kind {
                    TextKind::ApiResponse => (
                        count,
                        ReceiveActionView::Handle { report: ReportView::ApiResponse(t), pong: None, pong_seen: false },
                    ),
                    TextKind::Data => {
                        let c = (count + 1) as u64;
                        (
                            c,
                            ReceiveActionView::Handle {
                                report: if c % 10 == 0 {
                                    ReportView::DataProgress { count: c, text: t }
                                } else {
                                    ReportView::Quiet
                                },
                                pong: None,
                                pong_seen: false,
                            },
                        )
                    },
                    TextKind::NotJson => (
                        count,
                        ReceiveActionView::Handle { report: ReportView::PlainText(t), pong: None, pong_seen: false },
                    ),
                },
                WsMessageView::Binary(b) => (
                    count,
                    ReceiveActionView::Handle { report: ReportView::Binary(b.len()), pong: None, pong_seen: false },
                ),
                WsMessageView::Ping(d) => (
                    count,
                    ReceiveActionView::Handle { report: ReportView::PingReceived, pong: Some(d), pong_seen: false },
                ),
                WsMessageView::Pong(_) => (
                    count,
                    ReceiveActionView::Handle { report: ReportView::PongReceived, pong: None, pong_seen: true },
                ),
                WsMessageView::Close => (count, ReceiveActionView::Stop { disconnected: true }),
                WsMessageView::Frame => (
                    count,
                    ReceiveActionView::Handle { report: ReportView::Other, pong: None, pong_seen: false },
                ),
            },
        }
    }
}

/// Whether a step counts a data message.
pub open spec fn counts_data(shutdown: bool, incoming: IncomingView, kind: TextKind) -> bool {
    !shutdown && incoming is Message && incoming->Message_0 is Text && kind == TextKind::Data
}

/// One step of the receiver, the kind of a text message given.
pub fn receive_step_with_kind(state: &ReceiverState, shutdown: bool, incoming: Incoming, kind: TextKind) -> (r: (
    ReceiverState,
    ReceiveAction,
))
    requires
        counts_data(shutdown, incoming@, kind) ==> state.message_count < u64::MAX,
    ensures
        (r.0.message_count, r.1@) == receive_spec(state.message_count, shutdown, incoming@, kind),
{
    let count = state.message_count;
    if shutdown {
        return (ReceiverState { message_count: count }, ReceiveAction::Stop { disconnected: false });
    }
    match incoming {
        Incoming::Ended => (ReceiverState { message_count: count }, ReceiveAction::Stop { disconnected: false }),
        Incoming::Failed => (ReceiverState { message_count: count }, ReceiveAction::Stop { disconnected: true }),
        Incoming::Message(m) => match m {
            WsMessage::Text(t) => match kind {
                TextKind::ApiResponse => (
                    ReceiverState { message_count: count },
                    ReceiveAction::Handle { report: Report::ApiResponse(t), pong: None, pong_seen: false },
                ),
                TextKind::Data => {
                    let c = count + 1;
                    let report = if c % 10 == 0 {
                        Report::DataProgress { count: c, text: t }
                    } else {
                        Report::Quiet
                    };
                    (ReceiverState { message_count: c }, ReceiveAction::Handle { report, pong: None, pong_seen: false })
                },
                TextKind::NotJson => (
                    ReceiverState { message_count: count },
                    ReceiveAction::Handle { report: Report::PlainText(t), pong: None, pong_seen: false },
                ),
            },
            WsMessage::Binary(b) => (
                ReceiverState { message_count: count },
                ReceiveAction::Handle { report: Report::Binary(b.len()), pong: None, pong_seen: false },
            ),
            WsMessage::Ping(d) => (
                ReceiverState { message_count: count },
                ReceiveAction::Handle { report: Report::PingReceived, pong: Some(d), pong_seen: false },
            ),
            WsMessage::Pong(_) => (
                ReceiverState { message_count: count },
                ReceiveAction::Handle { report: Report::PongReceived, pong: None, pong_seen: true },
            ),
            WsMessage::Close => (ReceiverState { message_count: count }, ReceiveAction::Stop { disconnected: true }),
            WsMessage::Frame => (
                ReceiverState { message_count: count },
                ReceiveAction::Handle { report: Report::Other, pong: None, pong_seen: false },
            ),
        },
    }
}

/// The kind a text message would be given; other messages need none.
pub open spec fn incoming_kind(incoming: IncomingView) -> TextKind {
    match incoming {
        IncomingView::Message(WsMessageView::Text(t)) => text_kind_of(t),
        _ => TextKind::NotJson,
    }
}

/// One step of the receiver, reading text messages as JSON to tell their
/// kind; `None` when the step would count one data message more than a
/// `u64` holds.
pub fn receive_step(state: &ReceiverState, shutdown: bool, incoming: Incoming) -> (r: Option<(
    ReceiverState,
    ReceiveAction,
)>)
    ensures
        r is None <==> (counts_data(shutdown, incoming@, incoming_kind(incoming@))
            && state.message_count == u64::MAX),
        r matches Some(p) ==> (p.0.message_count, p.1@) == receive_spec(
            state.message_count,
            shutdown,
            incoming@,
            incoming_kind(incoming@),
        ),
{
    let kind = match &incoming {
        Incoming::Message(WsMessage::Text(t)) => {
            if shutdown {
                TextKind::NotJson
            } else {
                classify_text(t.as_str())
            }
        },
        _ => TextKind::NotJson,
    };
    assert(shutdown || kind == incoming_kind(incoming@));
    let is_text = match &incoming {
        Incoming::Message(WsMessage::Text(_)) => true,
        _ => false,
    };
    if !shutdown && is_text && kind == TextKind::Data && state.message_count == u64::MAX {
        return None;
    }
    Some(receive_step_with_kind(state, shutdown, incoming, kind))
}

/// The receiver never forgets data messages: its count never goes down,
/// goes up by exactly one for each data message and stays put otherwise.
pub proof fn law_receive_counts_data_messages(count: u64, shutdown: bool, incoming: IncomingView, kind: TextKind)
    requires
        counts_data(shutdown, incoming, kind) ==> count < u64::MAX,
    ensures
        receive_spec(count, shutdown, incoming, kind).0 == if counts_data(shutdown, incoming, kind) {
            count + 1
        } else {
            count as int
        },
{
}

/// A close frame or a read error always ends the receive loop as a lost
/// connection, unless a shutdown request ended it first.
pub proof fn law_close_or_error_disconnects(count: u64, incoming: IncomingView, kind: TextKind)
    requires
        incoming == IncomingView::Failed || incoming == IncomingView::Message(WsMessageView::Close),
    ensures
        receive_spec(count, false, incoming, kind).1 == (ReceiveActionView::Stop { disconnected: true }),
{
}

/// What the receiver does after answering with a pong.
#[derive(PartialEq, Eq, Structural)]
pub enum AfterPong {
    /// The pong went out: restart the pong timer and go on.
    RestartTimer,
    /// Sending failed: record the connection as lost and leave the loop.
    StopDisconnected,
}

/// The receiver's decision after sending a pong.
pub open spec fn after_pong_spec(sent: bool) -> AfterPong {
    if sent {
        AfterPong::RestartTimer
    } else {
        AfterPong::StopDisconnected
    }
}

/// Decides what the receiver does after sending a pong (an answer to a
/// ping or a keep-alive pong).
pub fn after_pong(sent: bool) -> (a: AfterPong)
    ensures
        a == after_pong_spec(sent),
{
    if sent {
        AfterPong::RestartTimer
    } else {
        AfterPong::StopDisconnected
    }
}

/// What the pinger does after sending a ping.
#[derive(PartialEq, Eq, Structural)]
pub enum AfterPing {
    /// The ping went out: wait for the next tick.
    KeepTicking,
    /// Sending failed: record the connection as lost and stop.
    StopDisconnected,
}

/// The pinger's decision after sending a ping.
pub open spec fn after_ping_spec(sent: bool) -> AfterPing {
    if sent {
        AfterPing::KeepTicking
    } else {
        AfterPing::StopDisconnected
    }
}

/// Decides what the pinger does after sending a ping.
pub fn after_ping(sent: bool) -> (a: AfterPing)
    ensures
        a == after_ping_spec(sent),
{
    if sent {
        AfterPing::KeepTicking
    } else {
        AfterPing::StopDisconnected
    }
}

/// A failed send ends the task that made it and marks the connection as
/// lost: the receiver after a pong, the pinger after a ping. Then the
/// pinger and the main task stop at their next look.
pub proof fn law_failed_send_ends_session(shutdown: bool)
    ensures
        after_pong_spec(false) == AfterPong::StopDisconnected,
        after_ping_spec(false) == AfterPing::StopDisconnected,
        ping_spec(shutdown, false) != PingDecision::SendPing,
        wait_spec(shutdown, false) != WaitDecision::KeepWaiting,
{
}

/// Nanoseconds without a pong after which the receiver sends one itself.
pub open spec fn keepalive_limit_nanos() -> u128 {
    300_000_000_000
}

/// Whether the receiver should send a keep-alive pong: more than five
/// minutes have passed since the last pong.
pub fn keepalive_pong_due(elapsed_nanos: u128) -> (b: bool)
    ensures
        b == (elapsed_nanos > keepalive_limit_nanos()),
{
    elapsed_nanos > 300_000_000_000
}

/// What the pinger does on each tick.
#[derive(PartialEq, Eq, Structural)]
pub enum PingDecision {
    /// A shutdown was requested: stop.
    StopShutdown,
    /// The connection is gone: stop.
    StopDisconnected,
    /// Send a ping; if that fails, mark the connection lost and stop.
    SendPing,
}

/// The pinger's decision for a tick.
pub open spec fn ping_spec(shutdown: bool, connected: bool) -> PingDecision {
    if shutdown {
        PingDecision::StopShutdown
    } else if !connected {
        PingDecision::StopDisconnected
    } else {
        PingDecision::SendPing
    }
}

/// Decides what the pinger does on a tick: a shutdown request is looked at
/// first, then the connection state.
pub fn ping_tick(shutdown: bool, connected: bool) -> (d: PingDecision)
    ensures
        d == ping_spec(shutdown, connected),
{
    if shutdown {
        PingDecision::StopShutdown
    } else if !connected {
        PingDecision::StopDisconnected
    } else {
        PingDecision::SendPing
    }
}

/// What the main task does while the session runs.
#[derive(PartialEq, Eq, Structural)]
pub enum WaitDecision {
    /// A shutdown was requested: close the connection.
    Shutdown,
    /// The connection is gone: close what is left.
    Disconnected,
    /// Wait another second.
    KeepWaiting,
}

/// The main task's decision.
pub open spec fn wait_spec(shutdown: bool, connected: bool) -> WaitDecision {
    if shutdown {
        WaitDecision::Shutdown
    } else if !connected {
        WaitDecision::Disconnected
    } else {
        WaitDecision::KeepWaiting
    }
}

/// Decides whether the main task keeps waiting.
pub fn wait_step(shutdown: bool, connected: bool) -> (d: WaitDecision)
    ensures
        d == wait_spec(shutdown, connected),
{
    if shutdown {
        WaitDecision::Shutdown
    } else if !connected {
        WaitDecision::Disconnected
    } else {
        WaitDecision::KeepWaiting
    }
}

/// No task of the session goes on once a shutdown is requested: the
/// receiver stops, the pinger stops and the main task closes.
pub proof fn law_shutdown_stops_everything(count: u64, incoming: IncomingView, kind: TextKind, connected: bool)
    ensures
        receive_spec(count, true, incoming, kind).1 == (ReceiveActionView::Stop { disconnected: false }),
        ping_spec(true, connected) == PingDecision::StopShutdown,
        wait_spec(true, connected) == WaitDecision::Shutdown,
{
}

/// The hints shown when the WebSocket handshake fails.
pub open spec fn failure_hints_spec(use_proxy: bool, proxy_url: Option<Seq<char>>) -> Seq<Seq<char>> {
    if use_proxy {
        seq!["请检查代理服务器 "@ + proxy_url.unwrap() + " 是否正常工作"@, "尝试使用 --no-proxy 参数直接连接"@]
    } else {
        seq!["请检查网络连接是否正常"@, "如果在中国大陆访问，可能需要使用代理"@]
    }
}

/// The hints to show when the handshake fails: check the proxy when one is
/// used, the network otherwise.
pub fn connection_failure_hints(cfg: &Config) -> (v: Vec<String>)
    requires
        cfg.use_proxy ==> cfg.proxy_url is Some,
    ensures
        crate::text::views(v@) == failure_hints_spec(cfg.use_proxy, opt_view(cfg.proxy_url)),
{
    let mut v: Vec<String> = Vec::new();
    if cfg.use_proxy {
        let mut first = String::from_str("请检查代理服务器 ");
        match &cfg.proxy_url {
            Some(p) => first.append(p.as_str()),
            None => {},
        }
        first.append(" 是否正常工作");
        v.push(first);
        v.push(String::from_str("尝试使用 --no-proxy 参数直接连接"));
    } else {
        v.push(String::from_str("请检查网络连接是否正常"));
        v.push(String::from_str("如果在中国大陆访问，可能需要使用代理"));
    }
    assert(crate::text::views(v@) =~= failure_hints_spec(cfg.use_proxy, opt_view(cfg.proxy_url)));
    v
}

} // verus!
