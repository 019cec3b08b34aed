use cc_log_viewer::text::{product_text, decimal, join2, join3, join5, is_blank, replace_char, text_lines};
use cc_log_viewer::{Json, JsonNumber};

fn text(value: &str) -> Json {
    Json::Text(value.to_string())
}

fn object(members: Vec<(&str, Json)>) -> Json {
    Json::Object(members.into_iter().map(|(k, v)| (k.to_string(), v)).collect())
}

#[test]
fn get_finds_the_member_of_an_object() {
    let value = object(vec![("a", text("1")), ("b", Json::Bool(true)), ("a", text("2"))]);
    assert_eq!(value.get("a").unwrap().as_str(), Some("1"));
    assert_eq!(value.get("b").unwrap().as_bool(), Some(true));
    assert!(value.get("c").is_none());
    assert!(value.get("").is_none());
    assert!(text("a").get("a").is_none());
    assert!(Json::Array(vec![text("a")]).get("a").is_none());
    assert!(Json::Null.get("a").is_none());
}

#[test]
fn accessors_follow_the_kind_of_value() {
    assert_eq!(text("x").as_str(), Some("x"));
    assert_eq!(Json::Null.as_str(), None);
    assert_eq!(Json::Number(JsonNumber::PosInt(7)).as_u64(), Some(7));
    assert_eq!(Json::Number(JsonNumber::PosInt(u64::MAX)).as_u64(), Some(u64::MAX));
    assert_eq!(Json::Number(JsonNumber::NegInt(-7)).as_u64(), None);
    assert_eq!(Json::Number(JsonNumber::Float("7.0".to_string())).as_u64(), None);
    assert_eq!(text("7").as_u64(), None);
    assert_eq!(Json::Bool(false).as_bool(), Some(false));
    assert_eq!(text("true").as_bool(), None);
    assert_eq!(Json::Array(vec![Json::Null]).as_array().map(|a| a.len()), Some(1));
    assert!(object(vec![]).as_array().is_none());
    assert_eq!(object(vec![("k", Json::Null)]).as_object().map(|m| m.len()), Some(1));
    assert!(Json::Array(vec![]).as_object().is_none());
    assert!(text("").is_string());
    assert!(!Json::Null.is_string());
    assert!(Json::Array(vec![]).is_array());
    assert!(!object(vec![]).is_array());
}

#[test]
fn typed_members() {
    let value = object(vec![
        ("s", text("x")),
        ("n", Json::Number(JsonNumber::PosInt(3))),
        ("b", Json::Bool(true)),
        ("a", Json::Array(vec![text("y")])),
    ]);
    assert_eq!(value.get_str("s"), Some("x"));
    assert_eq!(value.get_str("n"), None);
    assert_eq!(value.get_str("missing"), None);
    assert_eq!(value.get_u64("n"), Some(3));
    assert_eq!(value.get_u64("s"), None);
    assert_eq!(value.get_bool("b"), Some(true));
    assert_eq!(value.get_bool("s"), None);
    assert_eq!(value.get_array("a").map(|a| a.len()), Some(1));
    assert!(value.get_array("s").is_none());
}

#[test]
fn a_clone_holds_the_same_value() {
    let value = object(vec![
        ("a", Json::Array(vec![Json::Null, Json::Bool(true), text("t")])),
        ("n", Json::Number(JsonNumber::Float("2.5".to_string()))),
        ("o", object(vec![("inner", Json::Number(JsonNumber::NegInt(-1)))])),
    ]);
    let copy = value.clone();
    assert_eq!(format!("{:?}", copy), format!("{:?}", value));
}

#[test]
fn decimal_numerals() {
    assert_eq!(decimal(0), "0");
    assert_eq!(decimal(7), "7");
    assert_eq!(decimal(10), "10");
    assert_eq!(decimal(101), "101");
    assert_eq!(decimal(u64::MAX), "18446744073709551615");
}

#[test]
fn joining_and_replacing() {
    assert_eq!(join2("a", "b"), "ab");
    assert_eq!(join3("a", "", "c"), "ac");
    assert_eq!(join5("1", "2", "3", "4", "5"), "12345");
    assert_eq!(replace_char("a/b/c", '/', "-"), "a-b-c");
    assert_eq!(replace_char("a\nb", '\n', "\n> "), "a\n> b");
    assert_eq!(replace_char("", 'x', "y"), "");
    assert_eq!(replace_char("xxx", 'x', ""), "");
}

#[test]
fn blank_texts() {
    assert!(is_blank(""));
    assert!(is_blank(" \t\r\n\u{a0}"));
    assert!(!is_blank(" a "));
    assert!(!is_blank("\u{200b}"));
}

#[test]
fn lines_of_a_text_are_those_of_the_standard_library() {
    for sample in [
        "",
        "a",
        "a\n",
        "a\nb",
        "a\r\nb\r\n",
        "\n",
        "\n\n",
        "a\n\nb",
        "a\r",
        "a\rb",
        "a\r\r\nb",
        "\r\n",
        "\r",
        "x\n\r\ny\r",
        "unicode \u{1F44B}\nline\u{2028}two",
    ] {
        let expected: Vec<String> = sample.lines().map(|l| l.to_string()).collect();
        assert_eq!(text_lines(sample), expected, "{:?}", sample);
    }
}

#[test]
fn a_text_behind_the_name_of_a_product() {
    assert_eq!(product_text("Some Product", "Log Viewer"), "Some Product Log Viewer");
    assert_eq!(product_text("", "Log Viewer"), "Log Viewer");
    assert_eq!(product_text("X", ""), "X ");
}
