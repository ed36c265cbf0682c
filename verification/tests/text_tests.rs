use rustws::text::{
    chars_of, parse_u64, parse_u64_or, push_decimal, split_text, text_contains,
    text_eq, text_starts_with, trim,
};

fn decimal_string(n: u64) -> String {
    let mut s = String::new();
    push_decimal(&mut s, n);
    s
}

#[test]
fn decimal_of_zero_and_large_numbers() {
    assert_eq!(decimal_string(0), "0");
    assert_eq!(decimal_string(7), "7");
    assert_eq!(decimal_string(1725029869123), "1725029869123");
    assert_eq!(decimal_string(u64::MAX), "18446744073709551615");
}

#[test]
fn parse_accepts_what_u64_from_str_accepts() {
    for text in ["0", "15", "+300", "0007", "18446744073709551615", "", "+", "-1", " 5", "5 ", "1_0", "18446744073709551616", "abc", "１２"] {
        assert_eq!(parse_u64(text), text.parse::<u64>().ok(), "text {:?}", text);
    }
}

#[test]
fn parse_or_falls_back_to_default() {
    assert_eq!(parse_u64_or("120", 300), 120);
    assert_eq!(parse_u64_or("two minutes", 300), 300);
    assert_eq!(parse_u64_or("", 15), 15);
}

#[test]
fn law_parse_decimal_roundtrip_on_values() {
    for n in [0u64, 1, 9, 10, 99, 100, 65535, 1 << 40, u64::MAX - 1, u64::MAX] {
        assert_eq!(parse_u64(&decimal_string(n)), Some(n));
    }
}

#[test]
fn contains_and_prefix() {
    assert!(text_contains("wss://fstream.binance.com/ws", "binance.com"));
    assert!(!text_contains("wss://echo.websocket.org", "binance.com"));
    assert!(text_contains("abc", ""));
    assert!(!text_contains("ab", "abc"));
    assert!(text_contains("HTTP/1.1 200 Connection established", "200"));
    assert!(text_starts_with("binance_spot", "binance"));
    assert!(!text_starts_with("echo", "binance"));
    assert!(!text_starts_with("bin", "binance"));
    assert!(text_eq("local", "local"));
    assert!(!text_eq("local", "locals"));
}

#[test]
fn trim_matches_std() {
    for text in ["  exit\n", "\t\u{3000}你好 \r\n", "", "   ", "a b", "\u{85}x\u{a0}", "\u{200b}x"] {
        assert_eq!(trim(text), text.trim(), "text {:?}", text);
    }
}

#[test]
fn split_matches_std() {
    for text in ["@aggTrade", "@aggTrade,@depth", ",a,,b,", "", ","] {
        let expected: Vec<String> = text.split(',').map(|s| s.to_string()).collect();
        assert_eq!(split_text(text, ','), expected, "text {:?}", text);
    }
}

#[test]
fn law_split_join_roundtrip_on_values() {
    for text in ["@aggTrade, @depth", ",,", "x", ""] {
        assert_eq!(split_text(text, ',').join(","), text);
    }
}

#[test]
fn chars_roundtrip() {
    let cs = chars_of("币安 ws");
    assert_eq!(cs, vec!['币', '安', ' ', 'w', 's']);
    assert!(chars_of("").is_empty());
}
