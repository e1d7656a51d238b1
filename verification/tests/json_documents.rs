use autofill::json::Json;

fn text(s: &str) -> Json {
    Json::Text(s.to_string())
}

#[test]
fn parse_reads_an_object_member() {
    let doc = Json::parse("{\"email\": \"mail@mail.com\"}").unwrap();
    match doc {
        Json::Object(members) => {
            assert_eq!(members.len(), 1);
            assert_eq!(members[0].0, "email");
            assert!(matches!(&members[0].1, Json::Text(s) if s == "mail@mail.com"));
        }
        _ => panic!("an object was expected"),
    }
}

#[test]
fn parse_reads_every_kind_of_value() {
    let doc = Json::parse("[null, true, false, 12, \"a\\nb\", [], {}]").unwrap();
    let items = match doc {
        Json::List(items) => items,
        _ => panic!("a list was expected"),
    };
    assert_eq!(items.len(), 7);
    assert!(matches!(items[0], Json::Null));
    assert!(matches!(items[1], Json::Bool(true)));
    assert!(matches!(items[2], Json::Bool(false)));
    assert!(matches!(&items[3], Json::Number(n) if n.as_u64() == Some(12)));
    assert!(matches!(&items[4], Json::Text(s) if s == "a\nb"));
    assert!(matches!(&items[5], Json::List(inner) if inner.is_empty()));
    assert!(matches!(&items[6], Json::Object(inner) if inner.is_empty()));
}

#[test]
fn parse_refuses_what_is_no_json() {
    assert!(Json::parse("{\"email\": ").is_err());
    assert!(Json::parse("").is_err());
    assert!(Json::parse("{} trailing").is_err());
}

#[test]
fn parse_gives_the_parsers_message() {
    let message = Json::parse("{").unwrap_err();
    assert!(message.contains("line 1"), "{}", message);
}

#[test]
fn print_writes_compact_text() {
    let doc = Json::Object(vec![("email".to_string(), text("mail@mail.com"))]);
    assert_eq!(doc.print(), "{\"email\":\"mail@mail.com\"}");
}

#[test]
fn print_escapes_texts() {
    assert_eq!(text("say \"hi\"\n\\").print(), "\"say \\\"hi\\\"\\n\\\\\"");
}

#[test]
fn print_writes_every_kind_of_value() {
    let doc = Json::List(vec![
        Json::Null,
        Json::Bool(true),
        Json::Number(serde_json::Number::from(7u64)),
        text("x"),
        Json::List(vec![]),
        Json::Object(vec![]),
    ]);
    assert_eq!(doc.print(), "[null,true,7,\"x\",[],{}]");
}

#[test]
fn print_keeps_the_later_of_two_members_with_one_key() {
    let doc = Json::Object(vec![
        ("k".to_string(), text("first")),
        ("k".to_string(), text("second")),
    ]);
    assert_eq!(doc.print(), "{\"k\":\"second\"}");
}

#[test]
fn printed_text_is_read_back() {
    let doc = Json::Object(vec![
        ("b".to_string(), Json::List(vec![text("x\u{1}y"), Json::Null])),
        ("a".to_string(), Json::Bool(false)),
    ]);
    let printed = doc.print();
    let back = Json::parse(&printed).unwrap();
    assert_eq!(back.print(), printed);
    assert!(matches!(back.get("a"), Some(Json::Bool(false))));
}

#[test]
fn get_finds_a_member_by_its_key() {
    let doc = Json::Object(vec![
        ("a".to_string(), text("1")),
        ("b".to_string(), text("2")),
    ]);
    assert!(matches!(doc.get("a"), Some(Json::Text(s)) if s == "1"));
    assert!(matches!(doc.get("b"), Some(Json::Text(s)) if s == "2"));
    assert!(doc.get("c").is_none());
    assert!(doc.get("").is_none());
}

#[test]
fn get_takes_the_later_of_two_members_with_one_key() {
    let doc = Json::Object(vec![
        ("k".to_string(), text("first")),
        ("other".to_string(), Json::Null),
        ("k".to_string(), text("second")),
    ]);
    assert!(matches!(doc.get("k"), Some(Json::Text(s)) if s == "second"));
}

#[test]
fn get_finds_nothing_in_what_is_no_object() {
    assert!(Json::Null.get("a").is_none());
    assert!(text("a").get("a").is_none());
    assert!(Json::List(vec![text("a")]).get("a").is_none());
}

#[test]
fn constructors_build_the_variants() {
    assert!(matches!(Json::text("a"), Json::Text(s) if s == "a"));
    assert!(matches!(Json::list(vec![Json::Null]), Json::List(items) if items.len() == 1));
    assert!(matches!(
        Json::object(vec![("a".to_string(), Json::Null)]),
        Json::Object(members) if members.len() == 1
    ));
}

#[test]
fn print_keeps_the_later_member_whatever_the_order_of_the_keys() {
    let doc = Json::Object(vec![
        ("z".to_string(), text("1")),
        ("a".to_string(), text("2")),
        ("z".to_string(), text("3")),
        ("a".to_string(), text("4")),
        ("m".to_string(), Json::Object(vec![
            ("k".to_string(), Json::Null),
            ("k".to_string(), Json::Bool(true)),
        ])),
    ]);
    assert_eq!(doc.print(), "{\"a\":\"4\",\"m\":{\"k\":true},\"z\":\"3\"}");
    let back = Json::parse(&doc.print()).unwrap();
    for key in ["a", "m", "z"] {
        assert_eq!(back.get(key).unwrap().print(), doc.get(key).unwrap().print());
    }
}

#[test]
fn a_text_that_repeats_a_key_is_read_with_the_later_member() {
    let doc = Json::parse("{\"k\":1,\"k\":\"two\"}").unwrap();
    assert!(matches!(doc.get("k"), Some(Json::Text(s)) if s == "two"));
}
