use rust_github::github::{GitHub, GitHubError};
use rust_github::json::{parse_json, JsonValue};

#[test]
fn test_success_passthrough() {
    let gh = GitHub::new("u", "k");
    assert_eq!(gh.get_result(200, "plain text, {not json").unwrap(), "plain text, {not json");
    assert_eq!(gh.get_result(201, "{\"anything\":1}").unwrap(), "{\"anything\":1}");
    assert_eq!(gh.get_result(204, "").unwrap(), "");
    assert_eq!(gh.get_result(299, "x").unwrap(), "x");
}

#[test]
fn test_error_schema_with_parts() {
    let gh = GitHub::new("u", "k");
    let body = "{\"message\":\"Validation Failed\",\"errors\":[{\"resource\":\"Repository\",\
\"field\":\"name\",\"code\":\"custom\",\"message\":\"name already exists\"}]}";
    match gh.get_result(422, body) {
        Err(GitHubError::Api { message, errors }) => {
            assert_eq!(message, "Validation Failed");
            assert_eq!(errors.len(), 1);
            assert_eq!(errors[0].field, "name");
            assert_eq!(errors[0].code, "custom");
            assert_eq!(errors[0].message.as_deref(), Some("name already exists"));
        },
        other => panic!("expected an api error, got {:?}", other.is_ok()),
    }
}

#[test]
fn test_error_schema_without_parts() {
    let gh = GitHub::new("u", "k");
    match gh.get_result(404, "{\"message\":\"Not Found\"}") {
        Err(GitHubError::Api { message, errors }) => {
            assert_eq!(message, "Not Found");
            assert!(errors.is_empty());
        },
        _ => panic!("expected an api error"),
    }
}

#[test]
fn test_error_schema_with_whitespace_and_extra_keys() {
    let gh = GitHub::new("u", "k");
    let body = " {\n  \"documentation_url\": \"https://docs.example\",\n  \"message\": \"Bad credentials\",\n  \"errors\": [ {\"field\": \"f\", \"code\": \"missing\"} ]\n}\n";
    match gh.get_result(401, body) {
        Err(GitHubError::Api { message, errors }) => {
            assert_eq!(message, "Bad credentials");
            assert_eq!(errors.len(), 1);
            assert_eq!(errors[0].field, "f");
            assert_eq!(errors[0].code, "missing");
            assert_eq!(errors[0].message, None);
        },
        _ => panic!("expected an api error"),
    }
}

#[test]
fn test_error_malformed_body() {
    let gh = GitHub::new("u", "k");
    match gh.get_result(500, "<html>oops</html>") {
        Err(GitHubError::Api { message, errors }) => {
            assert!(message.contains("could not convert github's response into an error"));
            assert!(message.contains("<html>oops</html>"));
            assert!(errors.is_empty());
        },
        _ => panic!("expected an api error"),
    }
}

#[test]
fn test_error_wrong_shape_body() {
    let gh = GitHub::new("u", "k");
    // Valid JSON that does not carry the error schema still falls back.
    match gh.get_result(500, "[1,2,3]") {
        Err(GitHubError::Api { message, errors }) => {
            assert!(message.contains("could not convert github's response into an error"));
            assert!(message.contains("[1,2,3]"));
            assert!(errors.is_empty());
        },
        _ => panic!("expected an api error"),
    }
    // A message member of the wrong type is also malformed.
    match gh.get_result(500, "{\"message\":7}") {
        Err(GitHubError::Api { message, .. }) => {
            assert!(message.contains("{\"message\":7}"));
        },
        _ => panic!("expected an api error"),
    }
}

#[test]
fn test_parse_json_values() {
    match parse_json("  {\"a\": [1, -2, true, null, \"x\\u0000\"]} ") {
        // \u escapes are not accepted; the text is rejected as a whole.
        Some(_) => panic!("expected a parse failure"),
        None => {},
    }
    let v = parse_json("{\"a\": [1, -2, true, null, \"x\"] , \"b\" : {} }").unwrap();
    match v {
        JsonValue::Obj(members) => {
            assert_eq!(members.len(), 2);
            assert_eq!(members[0].0, "a");
            match &members[0].1 {
                JsonValue::Arr(items) => {
                    assert_eq!(items.len(), 5);
                    assert!(matches!(items[0], JsonValue::Num(1)));
                    assert!(matches!(items[1], JsonValue::Num(-2)));
                    assert!(matches!(items[2], JsonValue::Bool(true)));
                    assert!(matches!(items[3], JsonValue::Null));
                    match &items[4] {
                        JsonValue::Str(s) => assert_eq!(s, "x"),
                        _ => panic!("expected a string"),
                    }
                },
                _ => panic!("expected an array"),
            }
        },
        _ => panic!("expected an object"),
    }
    assert!(parse_json("{").is_none());
    assert!(parse_json("{}extra").is_none());
    assert!(parse_json("\"unterminated").is_none());
    assert!(parse_json("12345678901234567890123456789").is_none());
    assert!(parse_json("9223372036854775807").is_some());
}

#[test]
fn test_duplicate_keys_first_wins() {
    let gh = GitHub::new("u", "k");
    match gh.get_result(500, "{\"message\":\"first\",\"message\":\"second\"}") {
        Err(GitHubError::Api { message, .. }) => assert_eq!(message, "first"),
        _ => panic!("expected an api error"),
    }
}

#[test]
fn test_deeply_nested_arrays() {
    let mut text = String::new();
    for _ in 0..60 {
        text.push('[');
    }
    text.push_str("0");
    for _ in 0..60 {
        text.push(']');
    }
    assert!(parse_json(&text).is_some());
    assert!(parse_json(&text[1..]).is_none());
}

#[test]
fn test_string_escapes_parse() {
    let v = parse_json("\"a\\\"b\\\\c\\nd\\te\\r\\b\\f\\/\"").unwrap();
    match v {
        JsonValue::Str(s) => {
            assert_eq!(s, "a\"b\\c\nd\te\r\u{0008}\u{000C}/");
        },
        _ => panic!("expected a string"),
    }
}
