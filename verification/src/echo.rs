//! The plain echo client and echo server, and the handshake request text.

use vstd::prelude::*;
use crate::session::{
    receive_spec, IncomingView, ReceiveActionView, ReportView, TextKind, WsMessage, WsMessageView,
};
use crate::text::{decimal, push_decimal, text_eq, trim, trim_spec};

verus! {

/// The address the echo client connects to.
pub fn echo_server_url() -> (s: String)
    ensures
        s@ == "ws://127.0.0.1:9001"@,
{
    String::from_str("ws://127.0.0.1:9001")
}

/// The proxy the echo client routes through.
pub fn echo_client_proxy() -> (s: String)
    ensures
        s@ == "http://127.0.0.1:7890"@,
{
    String::from_str("http://127.0.0.1:7890")
}

/// The address the echo server listens on.
pub fn echo_server_bind_addr() -> (s: String)
    ensures
        s@ == "127.0.0.1:9001"@,
{
    String::from_str("127.0.0.1:9001")
}

/// The `i`-th test message the echo client sends on connecting.
pub open spec fn test_message_spec(i: u64) -> Seq<char> {
    "测试消息 "@ + decimal(i as nat)
}

/// Writes the `i`-th test message.
pub fn client_test_message(i: u64) -> (s: String)
    ensures
        s@ == test_message_spec(i),
{
    let mut s = String::from_str("测试消息 ");
    push_decimal(&mut s, i);
    s
}

/// What the echo client does with a line the user typed.
pub enum InputAction {
    /// Close the connection and quit.
    Exit,
    /// Send the text.
    Send(String),
    /// Nothing (the line was blank).
    Ignore,
}

/// The mathematical form of an input action.
pub enum InputActionView {
    Exit,
    Send(Seq<char>),
    Ignore,
}

impl View for InputAction {
    type V = InputActionView;

    open spec fn view(&self) -> InputActionView {
        match self {
            InputAction::Exit => InputActionView::Exit,
            InputAction::Send(t) => InputActionView::Send(t@),
            InputAction::Ignore => InputActionView::Ignore,
        }
    }
}

/// The action for a typed line: trimmed, `exit` quits, other non-blank
/// text is sent.
pub open spec fn input_action_spec(line: Seq<char>) -> InputActionView {
    let t = trim_spec(line);
    if t == "exit"@ {
        InputActionView::Exit
    } else if t.len() > 0 {
        InputActionView::Send(t)
    } else {
        InputActionView::Ignore
    }
}

/// Decides what to do with a typed line.
pub fn client_input_action(line: &str) -> (a: InputAction)
    ensures
        a@ == input_action_spec(line@),
{
    let t = trim(line);
    if text_eq(t.as_str(), "exit") {
        InputAction::Exit
    } else if t.as_str().unicode_len() > 0 {
        InputAction::Send(t)
    } else {
        InputAction::Ignore
    }
}

/// Whether the echo client keeps reading after a message: only a close
/// frame ends its reading.
pub open spec fn keeps_reading_spec(msg: WsMessageView) -> bool {
    !(msg is Close)
}

/// Decides whether the echo client keeps reading after a message.
pub fn client_keeps_reading(msg: &WsMessage) -> (b: bool)
    ensures
        b == keeps_reading_spec(msg@),
{
    match msg {
        WsMessage::Close => false,
        _ => true,
    }
}

/// How the echo server names a client: its address, or a placeholder
/// when the address is unknown.
pub fn client_label(peer: Option<String>) -> (s: String)
    ensures
        match peer {
            Some(p) => s@ == p@,
            None => s@ == "未知IP地址"@,
        },
{
    match peer {
        Some(p) => p,
        None => String::from_str("未知IP地址"),
    }
}

/// What the echo server does with a message.
pub enum ServerAction {
    /// Send `message`; if sending fails, close when `stop_on_failure`.
    Reply { message: WsMessage, stop_on_failure: bool },
    /// The client closed: stop.
    Stop,
    /// Nothing to send.
    Continue,
}

/// The mathematical form of a server action.
pub enum ServerActionView {
    Reply { message: WsMessageView, stop_on_failure: bool },
    Stop,
    Continue,
}

impl View for ServerAction {
    type V = ServerActionView;

    open spec fn view(&self) -> ServerActionView {
        match self {
            ServerAction::Reply { message, stop_on_failure } => ServerActionView::Reply {
                message: message@,
                stop_on_failure: *stop_on_failure,
            },
            ServerAction::Stop => ServerActionView::Stop,
            ServerAction::Continue => ServerActionView::Continue,
        }
    }
}

/// The text the server sends back for a text message.
pub open spec fn echo_reply_spec(client: Seq<char>, text: Seq<char>) -> Seq<char> {
    "服务器收到来自 "@ + client + " 的消息: "@ + text
}

/// The server's answer to a message: text is echoed with the client's
/// name (a failed reply ends the session), a ping is answered with a pong
/// holding the same data (a failed pong does not), a close ends the
/// session, anything else is only logged.
pub open spec fn server_action_spec(client: Seq<char>, msg: WsMessageView) -> ServerActionView {
    match msg {
        WsMessageView::Text(t) => ServerActionView::Reply {
            message: WsMessageView::Text(echo_reply_spec(client, t)),
            stop_on_failure: true,
        },
        WsMessageView::Ping(d) => ServerActionView::Reply {
            message: WsMessageView::Pong(d),
            stop_on_failure: false,
        },
        WsMessageView::Close => ServerActionView::Stop,
        _ => ServerActionView::Continue,
    }
}

/// Decides the echo server's answer to a message.
pub fn server_action(client: &str, msg: WsMessage) -> (a: ServerAction)
    ensures
        a@ == server_action_spec(client@, msg@),
{
    match msg {
        WsMessage::Text(t) => {
            let mut reply = String::from_str("服务器收到来自 ");
            reply.append(client);
            reply.append(" 的消息: ");
            reply.append(t.as_str());
            ServerAction::Reply { message: WsMessage::Text(reply), stop_on_failure: true }
        },
        WsMessage::Ping(d) => ServerAction::Reply { message: WsMessage::Pong(d), stop_on_failure: false },
        WsMessage::Close => ServerAction::Stop,
        _ => ServerAction::Continue,
    }
}

/// How many of the peeked bytes the server shows in hex: at most fifty.
pub fn hex_preview_len(n: usize) -> (k: usize)
    ensures
        k == if n < 50 { n } else { 50 },
{
    if n < 50 {
        n
    } else {
        50
    }
}

/// The WebSocket upgrade request for `path` on `host:port`.
pub open spec fn upgrade_request_spec(path: Seq<char>, host: Seq<char>, port: u16, key: Seq<char>) -> Seq<char> {
    "GET "@ + path + " HTTP/1.1\r\nHost: "@ + host + seq![':'] + decimal(port as nat)
        + "\r\nConnection: Upgrade\r\nUpgrade: websocket\r\nSec-WebSocket-Version: 13\r\nSec-WebSocket-Key: "@
        + key + "\r\nOrigin: http://"@ + host + seq![':'] + decimal(port as nat) + "\r\n\r\n"@
}

/// Writes the WebSocket upgrade request.
pub fn upgrade_request(path: &str, host: &str, port: u16, key: &str) -> (r: String)
    ensures
        r@ == upgrade_request_spec(path@, host@, port, key@),
{
    let mut r = String::from_str("GET ");
    r.append(path);
    r.append(" HTTP/1.1\r\nHost: ");
    r.append(host);
    r.push(':');
    push_decimal(&mut r, port as u64);
    r.append(
        "\r\nConnection: Upgrade\r\nUpgrade: websocket\r\nSec-WebSocket-Version: 13\r\nSec-WebSocket-Key: ",
    );
    r.append(key);
    r.append("\r\nOrigin: http://");
    r.append(host);
    r.push(':');
    push_decimal(&mut r, port as u64);
    r.append("\r\n\r\n");
    assert(r@ =~= upgrade_request_spec(path@, host@, port, key@));
    r
}

/// Pings are answered automatically with a pong that carries the same
/// payload, by the echo server and by the Binance client's receiver alike.
pub proof fn law_ping_answered_with_same_payload(client: Seq<char>, count: u64, data: Seq<u8>, kind: TextKind)
    ensures
        server_action_spec(client, WsMessageView::Ping(data)) == (ServerActionView::Reply {
            message: WsMessageView::Pong(data),
            stop_on_failure: false,
        }),
        receive_spec(count, false, IncomingView::Message(WsMessageView::Ping(data)), kind).1 == (
        ReceiveActionView::Handle { report: ReportView::PingReceived, pong: Some(data), pong_seen: false }),
{
}

/// A close frame ends the session wherever it arrives: the echo server
/// stops serving the client, the echo client stops reading and the Binance
/// client's receiver stops and records the connection as lost.
pub proof fn law_close_ends_every_reader(client: Seq<char>, count: u64, kind: TextKind)
    ensures
        server_action_spec(client, WsMessageView::Close) == ServerActionView::Stop,
        !keeps_reading_spec(WsMessageView::Close),
        receive_spec(count, false, IncomingView::Message(WsMessageView::Close), kind).1 == (
        ReceiveActionView::Stop { disconnected: true }),
{
}

/// Every typed line is acted on by its trimmed text: `exit` quits, any
/// other non-empty text (a single character included) is sent exactly as
/// trimmed, and only a line that trims to nothing is ignored.
pub proof fn law_typed_line_is_sent_trimmed(line: Seq<char>)
    ensures
        trim_spec(line) == "exit"@ ==> input_action_spec(line) == InputActionView::Exit,
        trim_spec(line) != "exit"@ && trim_spec(line).len() >= 1 ==> input_action_spec(line)
            == InputActionView::Send(trim_spec(line)),
        input_action_spec(line) == InputActionView::Ignore <==> trim_spec(line).len() == 0,
{
    reveal_strlit("exit");
    if trim_spec(line).len() == 0 {
        assert(trim_spec(line) != "exit"@);
    }
}

/// The server's answer to a text holds the client's name and the text
/// itself, whole and at the end; the echo client's test messages are
/// numbered with the given number.
pub proof fn law_echo_reply_quotes_the_text(client: Seq<char>, text: Seq<char>, i: u64)
    ensures
        server_action_spec(client, WsMessageView::Text(text)) == (ServerActionView::Reply {
            message: WsMessageView::Text("服务器收到来自 "@ + client + " 的消息: "@ + text),
            stop_on_failure: true,
        }),
        ({
            let r = echo_reply_spec(client, text);
            &&& r.len() >= text.len()
            &&& r.subrange(r.len() - text.len(), r.len() as int) == text
        }),
        test_message_spec(i) == "测试消息 "@ + decimal(i as nat),
{
    let r = echo_reply_spec(client, text);
    let head = "服务器收到来自 "@ + client + " 的消息: "@;
    assert(r == head + text);
    assert(r.subrange(r.len() - text.len(), r.len() as int) =~= text);
}

} // verus!
