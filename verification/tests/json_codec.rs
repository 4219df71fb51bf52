//! The JSON wire codec: parsing and serialization.

use transmission_rpc::json::Json;
use transmission_rpc::parse::parse_document;
use transmission_rpc::ser::to_text;

fn text(v: &Json) -> String {
    to_text(v)
}

/// Parses and re-serializes, so results can be compared as text.
fn p(s: &str) -> Option<String> {
    parse_document(s).map(|v| to_text(&v))
}

#[test]
fn parses_literals() {
    assert_eq!(p("null"), Some("null".to_string()));
    assert_eq!(p("true"), Some("true".to_string()));
    assert_eq!(p("false"), Some("false".to_string()));
    assert_eq!(p("  null  "), Some("null".to_string()));
    assert_eq!(p("nul"), None);
    assert_eq!(p("truex"), None);
}

#[test]
fn parses_integers() {
    assert_eq!(p("0"), Some("0".to_string()));
    assert_eq!(p("42"), Some("42".to_string()));
    assert_eq!(p("-7"), Some("-7".to_string()));
    assert_eq!(p("9223372036854775807"), Some("9223372036854775807".to_string()));
    match parse_document("-9223372036854775808") {
        Some(Json::Int(v)) => assert_eq!(v, i64::MIN),
        _ => panic!("the smallest signed integer must parse as an integer"),
    }
    // a leading zero is not a JSON number
    assert_eq!(p("0123"), None);
    assert_eq!(p("-"), None);
}

#[test]
fn keeps_non_integer_numbers_as_lexemes() {
    match parse_document("1.5") {
        Some(Json::NumText(lex)) => assert_eq!(lex, "1.5"),
        _ => panic!("a fractional number must keep its lexeme"),
    }
    match parse_document("-2e10") {
        Some(Json::NumText(lex)) => assert_eq!(lex, "-2e10"),
        _ => panic!("an exponential number must keep its lexeme"),
    }
    assert_eq!(p("1.25E-3"), Some("1.25E-3".to_string()));
    // one past the signed range keeps its digits
    match parse_document("9223372036854775808") {
        Some(Json::NumText(lex)) => assert_eq!(lex, "9223372036854775808"),
        _ => panic!("a number past the signed range must keep its lexeme"),
    }
    assert_eq!(p("1."), None);
    assert_eq!(p("1e"), None);
}

#[test]
fn parses_strings_and_escapes() {
    assert_eq!(p("\"\""), Some("\"\"".to_string()));
    assert_eq!(p("\"abc\""), Some("\"abc\"".to_string()));
    match parse_document("\"a\\n\\t\\\"\\\\b\"") {
        Some(Json::Str(text)) => assert_eq!(text, "a\n\t\"\\b"),
        _ => panic!("the escapes must unescape"),
    }
    match parse_document("\"\\u0041\"") {
        Some(Json::Str(text)) => assert_eq!(text, "A"),
        _ => panic!("a unicode escape must unescape"),
    }
    // a surrogate pair makes one character beyond the basic plane
    match parse_document("\"\\uD834\\uDD1E\"") {
        Some(Json::Str(text)) => assert_eq!(text, "\u{1D11E}"),
        _ => panic!("a surrogate pair must combine"),
    }
    // a lone surrogate is refused
    assert!(parse_document("\"\\uD834\"").is_none());
    // an unescaped control character is refused
    assert!(parse_document("\"a\u{1}b\"").is_none());
    assert!(parse_document("\"unterminated").is_none());
}

#[test]
fn parses_arrays_and_objects() {
    assert_eq!(p("[]"), Some("[]".to_string()));
    assert_eq!(p("[1, 2 ,3]"), Some("[1,2,3]".to_string()));
    assert_eq!(p("{}"), Some("{}".to_string()));
    assert_eq!(
        p("{\"a\": 1, \"b\": [true, null]}"),
        Some("{\"a\":1,\"b\":[true,null]}".to_string())
    );
    assert_eq!(p("[1,]"), None);
    assert_eq!(p("{\"a\":}"), None);
    assert_eq!(p("[1] trailing"), None);
}

#[test]
fn serializes_values() {
    assert_eq!(text(&Json::Null), "null");
    assert_eq!(text(&Json::Bool(true)), "true");
    assert_eq!(text(&Json::Int(-42)), "-42");
    assert_eq!(text(&Json::Int(i64::MIN)), "-9223372036854775808");
    assert_eq!(text(&Json::Str("a\"b\\c\n".to_string())), "\"a\\\"b\\\\c\\n\"");
    assert_eq!(text(&Json::Str("\u{1}".to_string())), "\"\\u0001\"");
    let v = Json::Obj(vec![
        ("arguments".to_string(), Json::Arr(vec![Json::Int(1), Json::Null])),
        ("method".to_string(), Json::Str("x".to_string())),
    ]);
    assert_eq!(text(&v), "{\"arguments\":[1,null],\"method\":\"x\"}");
}

#[test]
fn serialized_text_parses_back() {
    let v = Json::Obj(vec![
        ("a".to_string(), Json::Arr(vec![Json::Int(5), Json::Bool(false)])),
        ("b".to_string(), Json::Str("x y\tz".to_string())),
        ("c".to_string(), Json::Null),
    ]);
    let serialized = text(&v);
    assert_eq!(p(&serialized), Some(serialized.clone()));
}
