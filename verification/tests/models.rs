use ollama_tui::config::DEFAULT_PORT;
use ollama_tui::json::{locate_json, JsonDocument, JsonValue};
use ollama_tui::models::{
    color_of_lowercase, ChatSession, Config, ModelDetails, ModelsResponse, Role, Theme, ThemeColor,
};
use ollama_tui::text::{
    contains, decimal, equal, find_from, from_chars, join, rfind_char, signed_decimal, split_lines,
    strip, to_chars, trim,
};

#[test]
fn default_theme_colors() {
    let theme = Theme::default();
    assert_eq!(theme.chat_border_color, "yellow");
    assert_eq!(theme.sessions_border_color, "yellow");
    assert_eq!(theme.user_message_color, "cyan");
    assert_eq!(theme.assistant_message_color, "light_green");
    assert_eq!(theme.highlight_color, "black");
    assert_eq!(theme.highlight_bg_color, "light_green");
    assert_eq!(theme.status_bar_color, "dark_gray");
    assert_eq!(theme.popup_border_color, "yellow");
}

#[test]
fn default_config_values() {
    let config = Config::default();
    assert_eq!(config.ollama_host, "http://127.0.0.1");
    assert_eq!(config.ollama_port, 11434);
    assert_eq!(DEFAULT_PORT, 11434);
    assert_eq!(config.db_filename, "ollama-tui.sqlite");
    assert!(!config.auth_enabled);
    assert!(config.auth_method.is_none());
    assert_eq!(config.theme.user_message_color, "cyan");
    assert_eq!(config.server_url(), "http://127.0.0.1:11434");
}

#[test]
fn named_colors_are_parsed() {
    let theme = Theme::default();
    let cases = [
        ("black", ThemeColor::Black),
        ("red", ThemeColor::Red),
        ("green", ThemeColor::Green),
        ("yellow", ThemeColor::Yellow),
        ("blue", ThemeColor::Blue),
        ("magenta", ThemeColor::Magenta),
        ("cyan", ThemeColor::Cyan),
        ("gray", ThemeColor::Gray),
        ("grey", ThemeColor::Gray),
        ("dark_gray", ThemeColor::DarkGray),
        ("dark_grey", ThemeColor::DarkGray),
        ("light_red", ThemeColor::LightRed),
        ("light_green", ThemeColor::LightGreen),
        ("light_yellow", ThemeColor::LightYellow),
        ("light_blue", ThemeColor::LightBlue),
        ("light_magenta", ThemeColor::LightMagenta),
        ("light_cyan", ThemeColor::LightCyan),
        ("white", ThemeColor::White),
    ];
    for (name, color) in cases {
        assert_eq!(theme.parse_color(name), color, "{}", name);
        assert_eq!(theme.parse_color(&name.to_uppercase()), color, "{}", name);
    }
    assert_eq!(color_of_lowercase("RED"), ThemeColor::White);
}

#[test]
fn hex_colors_are_parsed() {
    let theme = Theme::default();
    assert_eq!(theme.parse_color("#FF0000"), ThemeColor::Rgb(255, 0, 0));
    assert_eq!(theme.parse_color("#0a1B2c"), ThemeColor::Rgb(10, 27, 44));
    assert_eq!(theme.parse_color("#+f+0+9"), ThemeColor::Rgb(15, 0, 9));
    for bad in ["#FF000", "#FF00000", "FF0000", "#GG0000", "#-10000", "#ff 000", "", "#", "#ééé", "purple"] {
        assert_eq!(theme.parse_color(bad), ThemeColor::White, "{}", bad);
    }
}

#[test]
fn new_chat_session() {
    let session = ChatSession::new(7, 123);
    assert_eq!(session.id, 0);
    assert_eq!(session.name, "Chat 7");
    assert_eq!(session.created_at, 123);
    assert_eq!(session.messages.len(), 1);
    assert_eq!(session.messages[0].role, Role::Assistant);
    assert_eq!(session.messages[0].content, "New chat started. Ask me anything!");
    assert_eq!(ChatSession::new(-12, 0).name, "Chat -12");
    assert_eq!(ChatSession::new(i64::MIN, 0).name, format!("Chat {}", i64::MIN));
}

#[test]
fn model_names_in_order() {
    let response = ModelsResponse {
        models: vec![
            ModelDetails { name: "llama3".to_string() },
            ModelDetails { name: "phi".to_string() },
        ],
    };
    assert_eq!(response.names(), vec!["llama3".to_string(), "phi".to_string()]);
}

#[test]
fn json_span_rules() {
    assert_eq!(locate_json("a {\"x\": {\"y\": 1}} b"), "{\"x\": {\"y\": 1}}");
    assert_eq!(locate_json("no braces"), "no braces");
    assert_eq!(locate_json("only { open"), "only { open");
    assert_eq!(locate_json("only } close"), "only } close");
    assert_eq!(locate_json("} before {"), "} before {");
    assert_eq!(locate_json("{}"), "{}");
    assert_eq!(locate_json("é{\"k\":\"✓\"}é"), "{\"k\":\"✓\"}");
}

#[test]
fn json_document_members() {
    let doc = JsonDocument::Object(vec![
        ("a".to_string(), JsonValue::Text("x".to_string())),
        ("b".to_string(), JsonValue::Flag(true)),
        ("c".to_string(), JsonValue::Other),
        ("a".to_string(), JsonValue::Text("y".to_string())),
    ]);
    assert_eq!(doc.text("a").as_deref(), Some("y"));
    assert_eq!(doc.text("b"), None);
    assert_eq!(doc.flag("b"), Some(true));
    assert_eq!(doc.flag("a"), None);
    assert_eq!(doc.text("c"), None);
    assert_eq!(doc.text("d"), None);
    assert_eq!(JsonDocument::Other.text("a"), None);
    assert_eq!(JsonDocument::Other.flag("a"), None);
}

#[test]
fn text_primitives() {
    let s = |t: &str| to_chars(t);
    assert_eq!(from_chars(&trim(&s(" \t\u{a0}a b\u{3000}\r\n"))), "a b");
    assert_eq!(from_chars(&trim(&s("   "))), "");
    assert_eq!(from_chars(&strip(&s("\"\"a\"b\"\""), '"')), "a\"b");
    assert_eq!(from_chars(&strip(&s("\"\""), '"')), "");
    let lines: Vec<String> = split_lines(&s("a\n\nb\r\nc\n")).iter().map(from_chars).collect();
    assert_eq!(lines, vec!["a", "", "b\r", "c"]);
    assert_eq!(split_lines(&s("")).len(), 0);
    assert_eq!(split_lines(&s("\n")).len(), 1);
    assert_eq!(find_from(&s("abcabc"), &s("bc"), 0), Some(1));
    assert_eq!(find_from(&s("abcabc"), &s("bc"), 2), Some(4));
    assert_eq!(find_from(&s("abcabc"), &s("bc"), 5), None);
    assert_eq!(find_from(&s("abc"), &s(""), 3), Some(3));
    assert_eq!(find_from(&s("abc"), &s(""), 4), None);
    assert_eq!(find_from(&s("ab"), &s("abc"), 0), None);
    assert_eq!(rfind_char(&s("a}b}c"), '}'), Some(3));
    assert_eq!(rfind_char(&s("abc"), '}'), None);
    assert!(contains(&s("hello"), &s("ell")));
    assert!(contains(&s("hello"), &s("")));
    assert!(!contains(&s("hello"), &s("elo")));
    assert_eq!(from_chars(&join(&vec![s("a"), s(""), s("b")], &s(", "))), "a, , b");
    assert_eq!(from_chars(&join(&Vec::new(), &s(", "))), "");
    assert_eq!(from_chars(&decimal(0)), "0");
    assert_eq!(from_chars(&decimal(u128::MAX)), u128::MAX.to_string());
    assert_eq!(from_chars(&signed_decimal(-9)), "-9");
    assert_eq!(from_chars(&signed_decimal(1234567890)), "1234567890");
    assert!(equal("é", "é"));
    assert!(!equal("a", "ab"));
}
