use rustws::config::Config;
use rustws::session::{
    after_ping, after_pong, classify_text, connection_failure_hints, keepalive_pong_due, ping_tick, receive_step,
    receive_step_with_kind, wait_step, AfterPing, AfterPong, Incoming, PingDecision, ReceiveAction, ReceiverState,
    Report, TextKind, WaitDecision, WsMessage,
};

#[test]
fn text_kinds() {
    assert!(classify_text(r#"{"result":null,"id":1}"#) == TextKind::ApiResponse);
    assert!(classify_text(r#"{"id":5}"#) == TextKind::ApiResponse);
    assert!(classify_text(r#"{"e":"aggTrade","p":"600.1"}"#) == TextKind::Data);
    assert!(classify_text("[1,2]") == TextKind::Data);
    assert!(classify_text("\"result\"") == TextKind::Data);
    assert!(classify_text("测试消息") == TextKind::NotJson);
    assert!(classify_text("{\"id\":") == TextKind::NotJson);
}

#[test]
fn every_tenth_data_message_is_shown() {
    let mut state = ReceiverState { message_count: 0 };
    for i in 1..=20u64 {
        let (next, action) = receive_step(&state, false, Incoming::Message(WsMessage::Text(format!("{{\"n\":{}}}", i)))).unwrap();
        assert_eq!(next.message_count, i);
        match action {
            ReceiveAction::Handle { report: Report::DataProgress { count, text }, pong: None, pong_seen: false } => {
                assert_eq!(i % 10, 0);
                assert_eq!(count, i);
                assert_eq!(text, format!("{{\"n\":{}}}", i));
            }
            ReceiveAction::Handle { report: Report::Quiet, pong: None, pong_seen: false } => assert_ne!(i % 10, 0),
            _ => panic!("unexpected action"),
        }
        state = next;
    }
}

#[test]
fn api_answers_and_plain_text_do_not_count() {
    let state = ReceiverState { message_count: 4 };
    let (next, action) = receive_step(&state, false, Incoming::Message(WsMessage::Text(r#"{"result":null,"id":1}"#.to_string()))).unwrap();
    assert_eq!(next.message_count, 4);
    assert!(matches!(action, ReceiveAction::Handle { report: Report::ApiResponse(_), .. }));
    let (next, action) = receive_step(&state, false, Incoming::Message(WsMessage::Text("hello".to_string()))).unwrap();
    assert_eq!(next.message_count, 4);
    assert!(matches!(action, ReceiveAction::Handle { report: Report::PlainText(ref t), .. } if t == "hello"));
}

#[test]
fn ping_is_answered_with_same_data() {
    let state = ReceiverState { message_count: 0 };
    let (_, action) = receive_step(&state, false, Incoming::Message(WsMessage::Ping(vec![1, 2, 3]))).unwrap();
    assert!(matches!(action, ReceiveAction::Handle { report: Report::PingReceived, pong: Some(ref d), pong_seen: false } if *d == vec![1, 2, 3]));
    let (_, action) = receive_step(&state, false, Incoming::Message(WsMessage::Pong(vec![]))).unwrap();
    assert!(matches!(action, ReceiveAction::Handle { report: Report::PongReceived, pong: None, pong_seen: true }));
    let (_, action) = receive_step(&state, false, Incoming::Message(WsMessage::Binary(vec![0; 7]))).unwrap();
    assert!(matches!(action, ReceiveAction::Handle { report: Report::Binary(7), .. }));
    let (_, action) = receive_step(&state, false, Incoming::Message(WsMessage::Frame)).unwrap();
    assert!(matches!(action, ReceiveAction::Handle { report: Report::Other, .. }));
}

#[test]
fn receiver_stops() {
    let state = ReceiverState { message_count: 0 };
    let (_, a) = receive_step(&state, false, Incoming::Message(WsMessage::Close)).unwrap();
    assert!(matches!(a, ReceiveAction::Stop { disconnected: true }));
    let (_, a) = receive_step(&state, false, Incoming::Failed).unwrap();
    assert!(matches!(a, ReceiveAction::Stop { disconnected: true }));
    let (_, a) = receive_step(&state, false, Incoming::Ended).unwrap();
    assert!(matches!(a, ReceiveAction::Stop { disconnected: false }));
    let (_, a) = receive_step(&state, true, Incoming::Message(WsMessage::Text("{}".to_string()))).unwrap();
    assert!(matches!(a, ReceiveAction::Stop { disconnected: false }));
    let (_, a) = receive_step_with_kind(&state, true, Incoming::Message(WsMessage::Close), TextKind::Data);
    assert!(matches!(a, ReceiveAction::Stop { disconnected: false }));
}

#[test]
fn counter_at_its_limit() {
    let state = ReceiverState { message_count: u64::MAX };
    assert!(receive_step(&state, false, Incoming::Message(WsMessage::Text("{}".to_string()))).is_none());
    assert!(receive_step(&state, false, Incoming::Message(WsMessage::Text("plain".to_string()))).is_some());
    assert!(receive_step(&state, true, Incoming::Message(WsMessage::Text("{}".to_string()))).is_some());
    assert!(receive_step(&state, false, Incoming::Message(WsMessage::Ping(vec![]))).is_some());
}

#[test]
fn failed_sends_end_the_session() {
    assert!(after_pong(true) == AfterPong::RestartTimer);
    assert!(after_pong(false) == AfterPong::StopDisconnected);
    assert!(after_ping(true) == AfterPing::KeepTicking);
    assert!(after_ping(false) == AfterPing::StopDisconnected);
    assert!(ping_tick(false, false) == PingDecision::StopDisconnected);
    assert!(wait_step(false, false) == WaitDecision::Disconnected);
}

#[test]
fn keepalive_after_five_minutes() {
    assert!(!keepalive_pong_due(300_000_000_000));
    assert!(keepalive_pong_due(300_000_000_001));
    assert!(!keepalive_pong_due(0));
}

#[test]
fn pinger_and_main_task() {
    assert!(ping_tick(true, true) == PingDecision::StopShutdown);
    assert!(ping_tick(true, false) == PingDecision::StopShutdown);
    assert!(ping_tick(false, false) == PingDecision::StopDisconnected);
    assert!(ping_tick(false, true) == PingDecision::SendPing);
    assert!(wait_step(true, false) == WaitDecision::Shutdown);
    assert!(wait_step(false, false) == WaitDecision::Disconnected);
    assert!(wait_step(false, true) == WaitDecision::KeepWaiting);
}

#[test]
fn failure_hints() {
    let mut c = Config {
        server_url: "wss://x".to_string(),
        use_proxy: true,
        proxy_url: Some("http://127.0.0.1:7890".to_string()),
        auto_shutdown: None,
        symbol: String::new(),
        streams: Vec::new(),
    };
    assert_eq!(
        connection_failure_hints(&c),
        vec!["请检查代理服务器 http://127.0.0.1:7890 是否正常工作", "尝试使用 --no-proxy 参数直接连接"]
    );
    c.use_proxy = false;
    assert_eq!(connection_failure_hints(&c), vec!["请检查网络连接是否正常", "如果在中国大陆访问，可能需要使用代理"]);
}
