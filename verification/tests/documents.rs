use stream_request::date_codec::{deserialize_date, serialize_date};
use stream_request::error::SchemaError;
use stream_request::event::Event;
use stream_request::json::Json;
use stream_request::request::Gift;
use stream_request::text::{same_text, starts_with};

#[test]
fn date_is_written_behind_its_prefix() {
    assert_eq!(serialize_date("2024-11-14"), "Date: 2024-11-14");
    assert_eq!(serialize_date(""), "Date: ");
    assert_eq!(serialize_date("Date: x"), "Date: Date: x");
}

#[test]
fn date_is_read_with_or_without_its_prefix() {
    assert_eq!(deserialize_date("Date: 2024-11-14"), "2024-11-14");
    assert_eq!(deserialize_date("2024-11-14"), "2024-11-14");
    assert_eq!(deserialize_date(""), "");
    assert_eq!(deserialize_date("Date: "), "");
    assert_eq!(deserialize_date("Date:"), "Date:");
    assert_eq!(deserialize_date("date: 2024-11-14"), "date: 2024-11-14");
}

#[test]
fn date_prefix_is_taken_off_once_and_at_the_front_only() {
    assert_eq!(deserialize_date("Date: Date: 2024-11-14"), "Date: 2024-11-14");
    assert_eq!(deserialize_date("on Date: 2024-11-14"), "on Date: 2024-11-14");
    assert_eq!(deserialize_date(" Date: 2024-11-14"), " Date: 2024-11-14");
}

#[test]
fn written_date_reads_back() {
    for date in ["2024-11-14", "", "Date: ", "Date: Date: ", "żółw 🐢", "x Date: y"] {
        assert_eq!(deserialize_date(&serialize_date(date)), date);
    }
}

#[test]
fn read_date_is_written_back_longer_without_prefix() {
    assert_eq!(serialize_date(&deserialize_date("2024-11-14")), "Date: 2024-11-14");
    assert_eq!(serialize_date(&deserialize_date("Date: 2024-11-14")), "Date: 2024-11-14");
}

#[test]
fn event_is_written_and_read() {
    let event = Event { name: "Event 1".to_owned(), date: "2024-11-14".to_owned() };
    let json = event.encode();
    assert_eq!(json, r#"{"name":"Event 1","date":"Date: 2024-11-14"}"#);
    let des_event = Event::decode(&json).unwrap();
    assert_eq!(des_event, event);
    assert_eq!(
        format!("{:?}", des_event),
        r#"Event { name: "Event 1", date: "2024-11-14" }"#
    );
}

#[test]
fn event_date_may_lack_its_prefix() {
    let event = Event::decode(r#"{"name":"Event 1","date":"2024-11-14"}"#).unwrap();
    assert_eq!(event.date, "2024-11-14");
    assert_eq!(event.name, "Event 1");
    let event = Event::decode(r#"{"date":"Date: Date: 1","name":""}"#).unwrap();
    assert_eq!(event.date, "Date: 1");
    assert_eq!(event.name, "");
}

#[test]
fn event_errors() {
    assert_eq!(Event::decode("{"), Err(SchemaError::Syntax));
    assert_eq!(Event::decode("[]"), Err(SchemaError::TypeMismatch));
    assert_eq!(Event::decode(r#"{"name":"x"}"#), Err(SchemaError::MissingField));
    assert_eq!(Event::decode(r#"{"date":"x"}"#), Err(SchemaError::MissingField));
    assert_eq!(Event::decode(r#"{"name":1,"date":"x"}"#), Err(SchemaError::TypeMismatch));
    assert_eq!(Event::decode(r#"{"name":"x","date":null}"#), Err(SchemaError::TypeMismatch));
}

#[test]
fn event_text_is_escaped_by_the_writer() {
    let event = Event { name: "a \"b\"\n".to_owned(), date: "\\".to_owned() };
    let json = event.encode();
    assert_eq!(json, r#"{"name":"a \"b\"\n","date":"Date: \\"}"#);
    assert_eq!(Event::decode(&json).unwrap(), event);
}

#[test]
fn text_is_read_into_a_tree() {
    let doc = Json::parse(r#" {"a": [1, -2, 2.5, true, null, "x"], "b": {}} "#).unwrap();
    let Json::Object(members) = doc else {
        panic!("no object");
    };
    assert_eq!(members.len(), 2);
    assert_eq!(members[0].0, "a");
    assert_eq!(members[1].0, "b");
    let Json::Array(items) = &members[0].1 else {
        panic!("no array");
    };
    assert_eq!(items.len(), 6);
    assert!(matches!(items[0], Json::Unsigned(1)));
    assert!(matches!(items[1], Json::OtherNumber));
    assert!(matches!(items[2], Json::OtherNumber));
    assert!(matches!(items[3], Json::Bool(true)));
    assert!(matches!(items[4], Json::Null));
    assert!(matches!(&items[5], Json::Text(s) if s == "x"));
    assert!(matches!(&members[1].1, Json::Object(inner) if inner.is_empty()));
    assert!(Json::parse("{").is_none());
    assert!(Json::parse("").is_none());
    assert!(Json::parse("1 2").is_none());
}

#[test]
fn members_are_read_in_the_order_of_the_text() {
    let doc = Json::parse(r#"{"z":1,"a":2,"m":3}"#).unwrap();
    let Json::Object(members) = doc else {
        panic!("no object");
    };
    let keys: Vec<&str> = members.iter().map(|m| m.0.as_str()).collect();
    assert_eq!(keys, vec!["z", "a", "m"]);
}

#[test]
fn largest_unsigned_number_is_kept() {
    let doc = Json::parse("18446744073709551615").unwrap();
    assert!(matches!(doc, Json::Unsigned(u64::MAX)));
    let doc = Json::parse("18446744073709551616").unwrap();
    assert!(matches!(doc, Json::OtherNumber));
}

#[test]
fn tree_is_written_as_compact_text() {
    let doc = Json::Object(vec![
        ("z".to_owned(), Json::Array(vec![Json::Unsigned(1), Json::Null, Json::Bool(false)])),
        ("a".to_owned(), Json::Text("x\ty".to_owned())),
        ("m".to_owned(), Json::Object(vec![])),
        ("n".to_owned(), Json::Unsigned(u64::MAX)),
    ]);
    let text = doc.print();
    assert_eq!(text, r#"{"z":[1,null,false],"a":"x\ty","m":{},"n":18446744073709551615}"#);
    let again = Json::parse(&text).unwrap();
    assert_eq!(again.print(), text);
}

#[test]
fn member_is_found_by_its_key() {
    let doc = Json::Object(vec![
        ("a".to_owned(), Json::Unsigned(1)),
        ("b".to_owned(), Json::Text("two".to_owned())),
        ("a".to_owned(), Json::Unsigned(3)),
        ("c".to_owned(), Json::Bool(true)),
        ("d".to_owned(), Json::Array(vec![Json::Null])),
    ]);
    assert!(matches!(doc.member("a"), Ok(Json::Unsigned(1))));
    assert!(matches!(doc.member("b"), Ok(Json::Text(_))));
    assert!(matches!(doc.member("x"), Err(SchemaError::MissingField)));
    assert!(matches!(Json::Null.member("a"), Err(SchemaError::TypeMismatch)));
    assert_eq!(doc.u32_at("a"), Ok(1));
    assert_eq!(doc.u32_at("b"), Err(SchemaError::TypeMismatch));
    assert_eq!(doc.u32_at("x"), Err(SchemaError::MissingField));
    assert_eq!(doc.text_at("b"), Ok("two"));
    assert_eq!(doc.text_at("a"), Err(SchemaError::TypeMismatch));
    assert_eq!(doc.bool_at("c"), Ok(true));
    assert_eq!(doc.bool_at("a"), Err(SchemaError::TypeMismatch));
    assert_eq!(doc.items_at("d").map(|items| items.len()), Ok(1));
    assert!(matches!(doc.items_at("c"), Err(SchemaError::TypeMismatch)));
}

#[test]
fn shapes_are_told_apart() {
    assert_eq!(Json::Unsigned(7).as_u32(), Ok(7));
    assert_eq!(Json::Unsigned(4_294_967_295).as_u32(), Ok(u32::MAX));
    assert_eq!(Json::Unsigned(4_294_967_296).as_u32(), Err(SchemaError::TypeMismatch));
    assert_eq!(Json::OtherNumber.as_u32(), Err(SchemaError::TypeMismatch));
    assert_eq!(Json::Text("7".to_owned()).as_u32(), Err(SchemaError::TypeMismatch));
    assert_eq!(Json::Text("7".to_owned()).as_text(), Ok("7"));
    assert_eq!(Json::Null.as_text(), Err(SchemaError::TypeMismatch));
    assert_eq!(Json::Bool(false).as_bool(), Ok(false));
    assert_eq!(Json::Unsigned(0).as_bool(), Err(SchemaError::TypeMismatch));
    assert!(Json::Array(vec![]).as_items().is_ok());
    assert!(Json::Object(vec![]).as_items().is_err());
}

#[test]
fn gift_is_written_and_read() {
    let gift = Gift { id: 1, price: 2, description: "Gift 1".to_owned() };
    let doc = gift.to_json();
    assert_eq!(doc.print(), r#"{"id":1,"price":2,"description":"Gift 1"}"#);
    assert_eq!(Gift::from_json(&doc), Ok(gift));
    let largest = Gift { id: u32::MAX, price: 0, description: String::new() };
    assert_eq!(Gift::from_json(&largest.to_json()), Ok(largest));
}

#[test]
fn texts_are_compared_by_their_characters() {
    assert!(same_text("", ""));
    assert!(same_text("type", "type"));
    assert!(!same_text("type", "typo"));
    assert!(!same_text("type", "typ"));
    assert!(!same_text("", "a"));
    assert!(same_text("żółw", "żółw"));
    assert!(!same_text("żółw", "zolw"));
}

#[test]
fn prefixes_are_found_at_the_front() {
    assert!(starts_with("Date: x", "Date: "));
    assert!(starts_with("Date: ", "Date: "));
    assert!(starts_with("anything", ""));
    assert!(starts_with("", ""));
    assert!(!starts_with("Date:", "Date: "));
    assert!(!starts_with("", "Date: "));
    assert!(!starts_with("xDate: ", "Date: "));
    assert!(starts_with("żółw", "żó"));
    assert!(!starts_with("zółw", "żó"));
}

#[test]
fn trees_are_compared_member_by_member() {
    let text = r#"{"a":[1,{"b":null}],"c":"d"}"#;
    let built = Json::Object(vec![
        (
            "a".to_owned(),
            Json::Array(vec![
                Json::Unsigned(1),
                Json::Object(vec![("b".to_owned(), Json::Null)]),
            ]),
        ),
        ("c".to_owned(), Json::Text("d".to_owned())),
    ]);
    assert_eq!(Json::parse(text), Some(built));
    assert_ne!(Json::parse(r#"{"c":"d","a":[1,{"b":null}]}"#), Json::parse(text));
}
