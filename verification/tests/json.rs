use voice_assistant::json::{Json, Member};

fn member(key: &str, value: Json) -> Member {
    Member { key: key.to_string(), value }
}

fn text(chars: &str) -> Json {
    Json::Text(chars.to_string())
}

#[test]
fn parse_reads_an_object_with_a_string_member() {
    let parsed = Json::parse(b"{\"text\": \"hello world\"}");
    let expected = Json::Object(vec![member("text", text("hello world"))]);
    assert_eq!(parsed, Ok(expected));
}

#[test]
fn parse_reads_every_kind_of_value() {
    let parsed = Json::parse(b"[null, true, false, 12, -3, 1.5, \"a\\nb\", [], {}]");
    let expected = Json::Array(vec![
        Json::Null,
        Json::Bool(true),
        Json::Bool(false),
        Json::Number("12".to_string()),
        Json::Number("-3".to_string()),
        Json::Number("1.5".to_string()),
        text("a\nb"),
        Json::Array(vec![]),
        Json::Object(vec![]),
    ]);
    assert_eq!(parsed, Ok(expected));
}

#[test]
fn parse_reads_nested_documents() {
    let parsed = Json::parse(b"{\"choices\":[{\"message\":{\"content\":\"Hi there!\"}}]}");
    let expected = Json::Object(vec![member(
        "choices",
        Json::Array(vec![Json::Object(vec![member(
            "message",
            Json::Object(vec![member("content", text("Hi there!"))]),
        )])]),
    )]);
    assert_eq!(parsed, Ok(expected));
}

#[test]
fn parse_keeps_the_last_of_two_members_with_one_key() {
    let parsed = Json::parse(b"{\"text\": \"first\", \"text\": \"second\"}");
    assert_eq!(parsed, Ok(Json::Object(vec![member("text", text("second"))])));
}

#[test]
fn parse_describes_what_is_wrong_with_bytes_that_are_no_document() {
    let parsed = Json::parse(b"{\"text\": ");
    assert_eq!(
        parsed,
        Err("EOF while parsing a value at line 1 column 9".to_string())
    );
}

#[test]
fn parse_refuses_an_empty_body() {
    assert_eq!(
        Json::parse(b""),
        Err("EOF while parsing a value at line 1 column 0".to_string())
    );
}

#[test]
fn parse_refuses_what_follows_a_document() {
    assert_eq!(
        Json::parse(b"{} {}"),
        Err("trailing characters at line 1 column 4".to_string())
    );
}

#[test]
fn parse_refuses_a_string_that_is_not_utf8() {
    assert!(Json::parse(&[b'"', 0xff, b'"']).is_err());
}

#[test]
fn member_finds_the_value_under_a_key() {
    let document = Json::Object(vec![member("model", text("m")), member("text", text("t"))]);
    assert_eq!(document.member("text"), Some(&text("t")));
    assert_eq!(document.member("model"), Some(&text("m")));
}

#[test]
fn member_finds_nothing_under_a_key_that_is_absent() {
    let document = Json::Object(vec![member("model", text("m"))]);
    assert_eq!(document.member("text"), None);
    assert_eq!(Json::Object(vec![]).member("text"), None);
}

#[test]
fn member_takes_the_first_of_two_members_with_one_key() {
    let document = Json::Object(vec![member("text", text("first")), member("text", text("second"))]);
    assert_eq!(document.member("text"), Some(&text("first")));
}

#[test]
fn member_finds_nothing_in_what_is_no_object() {
    assert_eq!(Json::Array(vec![text("text")]).member("text"), None);
    assert_eq!(text("text").member("text"), None);
    assert_eq!(Json::Null.member("text"), None);
}

#[test]
fn item_finds_the_element_at_an_index() {
    let array = Json::Array(vec![text("a"), text("b")]);
    assert_eq!(array.item(0), Some(&text("a")));
    assert_eq!(array.item(1), Some(&text("b")));
    assert_eq!(array.item(2), None);
}

#[test]
fn item_finds_nothing_in_what_is_no_array() {
    assert_eq!(Json::Object(vec![member("0", text("a"))]).item(0), None);
    assert_eq!(text("a").item(0), None);
}

#[test]
fn len_counts_the_elements_of_an_array_only() {
    assert_eq!(Json::Array(vec![]).len(), Some(0));
    assert_eq!(Json::Array(vec![Json::Null, Json::Null]).len(), Some(2));
    assert_eq!(Json::Object(vec![]).len(), None);
    assert_eq!(text("ab").len(), None);
}

#[test]
fn text_gives_the_characters_of_a_string_only() {
    assert_eq!(text("hello").text(), Some(&"hello".to_string()));
    assert_eq!(Json::Number("1".to_string()).text(), None);
    assert_eq!(Json::Null.text(), None);
}

#[test]
fn the_builders_make_what_they_are_given() {
    assert_eq!(Json::string("hello"), text("hello"));
    assert_eq!(Member::new("text", Json::Null), member("text", Json::Null));
    assert_eq!(Json::array(vec![Json::Null, text("a")]), Json::Array(vec![Json::Null, text("a")]));
    assert_eq!(
        Json::object(vec![member("a", Json::Bool(true))]),
        Json::Object(vec![member("a", Json::Bool(true))])
    );
}
