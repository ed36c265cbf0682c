use rustws::json::{create_binance_api_request, push_json_string, BinanceApiOperation};

fn s(v: &[&str]) -> Vec<String> {
    v.iter().map(|x| x.to_string()).collect()
}

#[test]
fn subscribe_frame() {
    let op = BinanceApiOperation::Subscribe(s(&["bnbusdt@aggTrade", "bnbusdt@depth"]));
    assert_eq!(
        create_binance_api_request(&op, 1725029869123).unwrap(),
        r#"{"id":1725029869123,"method":"SUBSCRIBE","params":["bnbusdt@aggTrade","bnbusdt@depth"]}"#
    );
}

#[test]
fn unsubscribe_frame_with_no_streams() {
    let op = BinanceApiOperation::Unsubscribe(Vec::new());
    assert_eq!(create_binance_api_request(&op, 5).unwrap(), r#"{"id":5,"method":"UNSUBSCRIBE","params":[]}"#);
}

#[test]
fn list_subscriptions_frame() {
    assert_eq!(
        create_binance_api_request(&BinanceApiOperation::ListSubscriptions, 3).unwrap(),
        r#"{"id":3,"method":"LIST_SUBSCRIPTIONS","params":null}"#
    );
}

#[test]
fn property_frames() {
    assert_eq!(
        create_binance_api_request(&BinanceApiOperation::GetProperty("combined".to_string()), 2).unwrap(),
        r#"{"id":2,"method":"GET_PROPERTY","params":"combined"}"#
    );
    assert_eq!(
        create_binance_api_request(&BinanceApiOperation::SetProperty("combined".to_string(), "true".to_string()), 1).unwrap(),
        r#"{"id":1,"method":"SET_PROPERTY","params":{"combined":true}}"#
    );
}

fn object(members: Vec<(&str, serde_json::Value)>) -> serde_json::Value {
    let mut m = serde_json::Map::new();
    for (k, v) in members {
        m.insert(k.to_string(), v);
    }
    serde_json::Value::Object(m)
}

#[test]
fn frames_match_serde_json_values() {
    let streams = s(&["a\"b", "c\\d", "tab\there", "\u{1}ctl", "币安"]);
    let params = serde_json::Value::Array(
        streams.iter().map(|x| serde_json::Value::String(x.clone())).collect(),
    );
    let expected = object(vec![
        ("method", serde_json::Value::String("SUBSCRIBE".to_string())),
        ("params", params),
        ("id", serde_json::Value::from(-17i64)),
    ])
    .to_string();
    assert_eq!(create_binance_api_request(&BinanceApiOperation::Subscribe(streams), -17).unwrap(), expected);

    let value = object(vec![(
        "a",
        serde_json::Value::Array(vec![
            serde_json::Value::from(1),
            serde_json::Value::from(2),
            serde_json::Value::Null,
        ]),
    )]);
    let expected = object(vec![
        ("method", serde_json::Value::String("SET_PROPERTY".to_string())),
        ("params", object(vec![("x\ny", value.clone())])),
        ("id", serde_json::Value::from(9i64)),
    ])
    .to_string();
    let op = BinanceApiOperation::SetProperty("x\ny".to_string(), value.to_string());
    assert_eq!(create_binance_api_request(&op, 9).unwrap(), expected);
    // The value is sent as serde_json writes it, whatever its spacing.
    let spaced = BinanceApiOperation::SetProperty("x\ny".to_string(), " { \"a\" : [1, 2, null] } ".to_string());
    assert_eq!(create_binance_api_request(&spaced, 9).unwrap(), expected);
}

#[test]
fn property_value_must_be_json() {
    let op = BinanceApiOperation::SetProperty("combined".to_string(), "{not json".to_string());
    assert!(create_binance_api_request(&op, 1).is_none());
}

#[test]
fn json_strings_are_escaped() {
    let mut out = String::new();
    push_json_string(&mut out, "say \"hi\"\n\u{1f}/");
    assert_eq!(out, r#""say \"hi\"\n\u001f/""#);
}
