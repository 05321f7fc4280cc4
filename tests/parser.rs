use token_relay::{find_mint_line, parse_token_created, str_contains, JsonValue, Timestamp};

const NOW: Timestamp = Timestamp { secs: 1_700_000_000, nanos: 0 };

fn text(s: &str) -> JsonValue {
    JsonValue::Str(s.to_string())
}

fn obj(members: Vec<(&str, JsonValue)>) -> JsonValue {
    JsonValue::Object(members.into_iter().map(|(k, v)| (k.to_string(), v)).collect())
}

fn notification(value: JsonValue) -> JsonValue {
    obj(vec![("params", obj(vec![("result", obj(vec![("value", value)]))]))])
}

#[test]
fn parses_initialize_mint_notification() {
    let raw = notification(obj(vec![
        ("logs", JsonValue::Array(vec![text("Program log: InitializeMint")])),
        ("signature", text("SIG123")),
    ]));
    let ev = parse_token_created(&raw, NOW).unwrap().expect("recognized");
    assert_eq!(ev.transaction_signature, "SIG123");
    assert_eq!(ev.event_type, "token_created");
    assert_eq!(ev.token.mint_address, "");
    assert_eq!(ev.token.name, "");
    assert_eq!(ev.token.symbol, "");
    assert_eq!(ev.token.creator, "");
    assert_eq!(ev.token.supply, 0);
    assert_eq!(ev.token.decimals, 0);
    assert_eq!(ev.pump_data.bonding_curve, "");
    assert_eq!(ev.pump_data.virtual_sol_reserves, 0);
    assert_eq!(ev.pump_data.virtual_token_reserves, 0);
    assert_eq!(ev.timestamp, NOW);
}

#[test]
fn notification_without_params_is_ignored() {
    let raw = obj(vec![("method", text("accountNotification"))]);
    assert_eq!(parse_token_created(&raw, NOW).unwrap(), None);
    assert_eq!(parse_token_created(&JsonValue::Null, NOW).unwrap(), None);
}

#[test]
fn notification_without_logs_is_ignored() {
    let raw = notification(obj(vec![("signature", text("SIG"))]));
    assert_eq!(parse_token_created(&raw, NOW).unwrap(), None);
    let not_a_list = notification(obj(vec![("logs", text("InitializeMint"))]));
    assert_eq!(parse_token_created(&not_a_list, NOW).unwrap(), None);
}

#[test]
fn logs_without_marker_are_ignored() {
    let raw = notification(obj(vec![(
        "logs",
        JsonValue::Array(vec![text("Program log: Transfer"), text("Initialize Mint")]),
    )]));
    assert_eq!(parse_token_created(&raw, NOW).unwrap(), None);
}

#[test]
fn several_mint_lines_give_one_event() {
    let raw = notification(obj(vec![
        (
            "logs",
            JsonValue::Array(vec![
                JsonValue::Bool(true),
                text("a InitializeMint"),
                text("b InitializeMint"),
            ]),
        ),
        ("signature", text("S")),
    ]));
    let at = Timestamp { secs: 1_700_000_000, nanos: 5 };
    let ev = parse_token_created(&raw, at).unwrap().expect("recognized");
    assert_eq!(ev.timestamp, at);
    assert_eq!(ev.transaction_signature, "S");
}

#[test]
fn missing_signature_gives_empty_string() {
    let raw = notification(obj(vec![
        ("logs", JsonValue::Array(vec![text("InitializeMint")])),
        ("signature", JsonValue::Number("7".to_string())),
    ]));
    let ev = parse_token_created(&raw, Timestamp { secs: 0, nanos: 0 }).unwrap().unwrap();
    assert_eq!(ev.transaction_signature, "");
}

#[test]
fn first_mint_line_is_found() {
    let logs = vec![
        text("start"),
        JsonValue::Null,
        text("xxInitializeMintxx"),
        text("InitializeMint"),
    ];
    assert_eq!(find_mint_line(&logs), Some(2));
    assert_eq!(find_mint_line(&vec![text("InitializeMin")]), None);
    assert_eq!(find_mint_line(&Vec::new()), None);
}

#[test]
fn object_lookup_finds_members() {
    let v = obj(vec![("a", text("x")), ("b", JsonValue::Bool(false))]);
    assert_eq!(v.get("b"), Some(&JsonValue::Bool(false)));
    assert_eq!(v.get("c"), None);
    assert_eq!(text("a").get("a"), None);
    assert_eq!(v.get("a").and_then(|x| x.as_str()), Some("x"));
    assert!(v.as_array().is_none());
}

#[test]
fn substring_search() {
    assert!(str_contains("Program log: InitializeMint", "InitializeMint"));
    assert!(str_contains("InitializeMint", "InitializeMint"));
    assert!(str_contains("abc", ""));
    assert!(str_contains("", ""));
    assert!(!str_contains("", "a"));
    assert!(!str_contains("InitializeMin", "InitializeMint"));
    assert!(str_contains("ééxé", "xé"));
    assert!(!str_contains("abab", "abb"));
}
