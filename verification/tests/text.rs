use oxide_mcp::input::handle_lines;
use oxide_mcp::json::{Json, Object};
use oxide_mcp::line::{handle_line, handle_reading, response_line};
use oxide_mcp::session::{InitState, SessionState};
use oxide_mcp::text::same_text;
use oxide_mcp::value::{parse_json, render_json};

#[test]
fn texts_are_compared() {
    assert!(same_text("", ""));
    assert!(same_text("grün", "grün"));
    assert!(!same_text("a", "b"));
    assert!(!same_text("a", "ab"));
}

#[test]
fn values_are_read_and_written() {
    for text in [
        "null",
        "true",
        "0",
        "18446744073709551615",
        "-9223372036854775808",
        "1.5",
        "-0.25",
        r#""a\"\\\n\u0001é""#,
        "[]",
        "[1,[2,{}],null]",
        r#"{"a":{"b":[false]},"z":""}"#,
    ] {
        assert_eq!(render_json(parse_json(text).expect("JSON")), text);
    }
    assert_eq!(render_json(parse_json(" { \"b\" : 1 , \"a\" : 2.0 } ").expect("JSON")), r#"{"a":2.0,"b":1}"#);
}

#[test]
fn later_member_counts() {
    let json = parse_json(r#"{"a":1,"b":2,"a":3}"#).expect("JSON");
    assert_eq!(render_json(json), r#"{"a":3,"b":2}"#);
    let mut object = Object::new().with("a", Json::Bool(false)).with("b", Json::Null).with("a", Json::Bool(true));
    assert!(matches!(object.get("a"), Some(Json::Bool(true))));
    assert!(matches!(object.take("a"), Some(Json::Bool(true))));
    assert!(object.get("a").is_none());
    assert!(object.take("a").is_none());
    assert!(matches!(object.get("b"), Some(Json::Null)));
    assert!(object.take("c").is_none());
    let doubled = Object::new().with("a", Json::Signed(-1)).with("a", Json::Unsigned(1));
    assert_eq!(render_json(Json::Object(doubled)), r#"{"a":1}"#);
}

#[test]
fn members_are_found() {
    let json = parse_json(r#"{"a":null}"#).expect("JSON");
    assert!(matches!(json.get("a"), Some(Json::Null)));
    assert!(json.get("b").is_none());
    assert!(Json::String("a".to_string()).get("a").is_none());
}

#[test]
fn numbers_are_told_apart() {
    assert!(matches!(parse_json("7"), Ok(Json::Unsigned(7))));
    assert!(matches!(parse_json("-7"), Ok(Json::Signed(-7))));
    assert!(matches!(parse_json("7.0"), Ok(Json::Fraction(_))));
    assert!(matches!(parse_json("1e3"), Ok(Json::Fraction(_))));
    assert!(matches!(parse_json("18446744073709551616"), Ok(Json::Fraction(_))));
}

#[test]
fn unreadable_text() {
    assert_eq!(parse_json("{").expect_err("no JSON"), "EOF while parsing an object at line 1 column 1");
    assert_eq!(parse_json("x").expect_err("no JSON"), "expected value at line 1 column 1");
    assert_eq!(parse_json("1 2").expect_err("no JSON"), "trailing characters at line 1 column 3");
}

#[test]
fn lines_are_answered() {
    let mut state = SessionState::default();
    assert_eq!(
        handle_line("  {\"jsonrpc\":\"2.0\",\"id\":\"a\\nb\",\"method\":\"ping\"}\r\n", &mut state),
        Some("{\"id\":\"a\\nb\",\"jsonrpc\":\"2.0\",\"result\":{}}\n".to_string())
    );
    assert_eq!(
        handle_line("nonsense\n", &mut state),
        Some(
            "{\"error\":{\"code\":-32700,\"data\":{\"details\":\"expected ident at line 1 column 2\"},\"message\":\"Parse error\"},\"id\":null,\"jsonrpc\":\"2.0\"}\n"
                .to_string()
        )
    );
}

#[test]
fn blank_lines_are_passed_over() {
    let mut state = SessionState::default();
    for line in ["", "\n", " \t\r\n", "\u{a0}\u{2003}\u{3000}\n"] {
        assert_eq!(handle_line(line, &mut state), None);
    }
    assert_eq!(state.init_state, InitState::Uninitialized);
}

#[test]
fn notifications_get_no_line() {
    let mut state = SessionState {
        init_state: InitState::Initializing,
        ..SessionState::default()
    };
    assert_eq!(
        handle_line("{\"jsonrpc\":\"2.0\",\"method\":\"notifications/initialized\"}\n", &mut state),
        None
    );
    assert_eq!(state.init_state, InitState::Initialized);
}

#[test]
fn readings_are_answered() {
    let mut state = SessionState::default();
    let response = handle_reading(Err("why".to_string()), &mut state).expect("response");
    assert_eq!(
        response_line(response),
        "{\"error\":{\"code\":-32700,\"data\":{\"details\":\"why\"},\"message\":\"Parse error\"},\"id\":null,\"jsonrpc\":\"2.0\"}\n"
    );
    let response = handle_reading(Ok(Json::Null), &mut state).expect("response");
    assert!(response_line(response).contains("\"code\":-32600"));
}

const WHITE_SPACE: [(u32, u32); 10] = [
    (0x9, 0xd),
    (0x20, 0x20),
    (0x85, 0x85),
    (0xa0, 0xa0),
    (0x1680, 0x1680),
    (0x2000, 0x200a),
    (0x2028, 0x2029),
    (0x202f, 0x202f),
    (0x205f, 0x205f),
    (0x3000, 0x3000),
];

fn is_white_space(c: char) -> bool {
    WHITE_SPACE.iter().any(|(from, to)| *from <= c as u32 && c as u32 <= *to)
}

#[test]
fn white_space_is_what_is_trimmed() {
    for c in '\u{0}'..=char::MAX {
        assert_eq!(c.to_string().trim().is_empty(), is_white_space(c));
    }
    for c in '\u{0}'..='\u{3100}' {
        let mut state = SessionState::default();
        assert_eq!(handle_line(&c.to_string(), &mut state).is_none(), is_white_space(c));
    }
}

#[test]
fn line_ends_do_not_matter() {
    let line = "{\"jsonrpc\":\"2.0\",\"id\":1,\"method\":\"ping\"}";
    let expected = "{\"id\":1,\"jsonrpc\":\"2.0\",\"result\":{}}\n";
    for (before, after) in [("", ""), ("", "\n"), ("", "\r\n"), ("\t ", "\u{2003}\n")] {
        let mut state = SessionState::default();
        let whole = format!("{}{}{}", before, line, after);
        assert_eq!(handle_line(&whole, &mut state).as_deref(), Some(expected));
    }
}

#[test]
fn sent_lines_read_back() {
    let mut state = SessionState::default();
    let deep = format!("{}{}", "[".repeat(120), "]".repeat(120));
    for line in [
        r#"{"jsonrpc":"2.0","id":-9223372036854775808,"method":"initialize","params":["2025-11-25"]}"#.to_string(),
        r#"{"jsonrpc":"2.0","id":"\u0000\u001f\"\\/é ","method":"ping"}"#.to_string(),
        r#"[{"jsonrpc":"2.0","id":1,"method":"initialize"},1.5]"#.to_string(),
        deep,
        "nonsense".to_string(),
    ] {
        let text = handle_line(&line, &mut state).expect("response");
        let json = parse_json(&text[..text.len() - 1]).expect("JSON");
        assert_eq!(response_line(json), text);
    }
}

#[test]
fn depth_that_reads_back() {
    let nested = |depth: usize| {
        let mut json = Json::Null;
        for _ in 0..depth {
            json = Json::Array(vec![json]);
        }
        render_json(json)
    };
    assert_eq!(render_json(parse_json(&nested(127)).expect("JSON")), nested(127));
    assert_eq!(
        parse_json(&nested(128)).expect_err("too deep"),
        "recursion limit exceeded at line 1 column 128"
    );
}

fn input() -> Vec<String> {
    INPUT.iter().map(|line| line.to_string()).collect()
}

const INPUT: [&str; 8] = [
    "{\"jsonrpc\":\"2.0\",\"id\":1,\"method\":\"tools/list\"}\n",
    "\n",
    "{\"jsonrpc\":\"2.0\",\"id\":2,\"method\":\"initialize\",\"params\":{\"protocolVersion\":\"1\"}}\r\n",
    "{\"jsonrpc\":\"2.0\",\"id\":3,\"method\":\"initialize\",\"params\":[\"2025-11-25\",{},[\"n\",\"v\"]]}\n",
    "  \t\n",
    "{\"jsonrpc\":\"2.0\",\"method\":\"notifications/initialized\"}\n",
    "x\n",
    "{\"jsonrpc\":\"2.0\",\"id\":4,\"method\":\"tools/list\"}",
];

#[test]
fn whole_input_is_answered_line_by_line() {
    let mut state = SessionState::default();
    let sent = handle_lines(&input(), &mut state);
    let expected = [
        "{\"error\":{\"code\":-32002,\"data\":null,\"message\":\"Server not initialized\"},\"id\":1,\"jsonrpc\":\"2.0\"}\n",
        "{\"error\":{\"code\":-32602,\"data\":{\"supported\":[\"2025-11-25\"]},\"message\":\"Unsupported protocol version\"},\"id\":2,\"jsonrpc\":\"2.0\"}\n",
        "{\"id\":3,\"jsonrpc\":\"2.0\",\"result\":{\"capabilities\":{\"completion\":{},\"logging\":{},\"prompts\":{\"listChanged\":false},\"resources\":{\"listChanged\":false,\"subscribe\":false},\"tools\":{\"listChanged\":false}},\"instructions\":\"MCP server implementation with full protocol method coverage and strict lifecycle handling.\",\"protocolVersion\":\"2025-11-25\",\"serverInfo\":{\"name\":\"oxide-mcp\",\"version\":\"0.1.0\"}}}\n",
        "{\"error\":{\"code\":-32700,\"data\":{\"details\":\"expected value at line 1 column 1\"},\"message\":\"Parse error\"},\"id\":null,\"jsonrpc\":\"2.0\"}\n",
        "{\"id\":4,\"jsonrpc\":\"2.0\",\"result\":{\"tools\":[]}}\n",
    ];
    assert_eq!(sent, expected.concat());
    assert_eq!(state.init_state, InitState::Initialized);
    assert_eq!(state.client_info.expect("client info").name, "n");
}

#[test]
fn input_can_come_in_two() {
    let all = input();
    let mut whole = SessionState::default();
    let sent = handle_lines(&all, &mut whole);
    for at in 0..=all.len() {
        let mut parts = SessionState::default();
        let first = handle_lines(&all[..at].to_vec(), &mut parts);
        let second = handle_lines(&all[at..].to_vec(), &mut parts);
        assert_eq!(sent, format!("{}{}", first, second));
        assert_eq!(whole.init_state, parts.init_state);
    }
    assert_eq!(handle_lines(&Vec::new(), &mut SessionState::default()), "");
}
