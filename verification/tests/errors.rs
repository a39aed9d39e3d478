use stream_request::error::SchemaError;
use stream_request::request::Request;

const DOCUMENT: &str = r#"{"type":"success","stream":{"user_id":"8d234120-0bda-49b2-b7e0-fbd3912f6cbf","is_private":false,"settings":45345,"shard_url":"https://n3.example.com/sapi","public_tariff":{"id":1,"price":100,"duration":"1h","description":"test public tariff"},"private_tariff":{"client_price":250,"duration":"60s","description":"test private tariff"}},"gifts":[{"id":1,"price":2,"description":"Gift 1"},{"id":2,"price":3,"description":"Gift 2"}],"debug":{"duration":"234ms","at":"2019-06-28T08:35:46+00:00"}}"#;

fn error_of(text: &str) -> SchemaError {
    Request::decode(text).unwrap_err()
}

#[test]
fn unknown_type_fails() {
    let text = DOCUMENT.replace(r#""type":"success""#, r#""type":"unknown""#);
    assert_eq!(error_of(&text), SchemaError::BadTag);
}

#[test]
fn pending_type_fails() {
    let text = DOCUMENT.replace(r#""type":"success""#, r#""type":"pending""#);
    assert_eq!(error_of(&text), SchemaError::BadTag);
}

#[test]
fn tag_tokens_are_lower_case_only() {
    let text = DOCUMENT.replace(r#""type":"success""#, r#""type":"Success""#);
    assert_eq!(error_of(&text), SchemaError::BadTag);
}

#[test]
fn shard_url_that_is_no_url_fails() {
    let text = DOCUMENT.replace("https://n3.example.com/sapi", "not a url");
    assert_eq!(error_of(&text), SchemaError::BadUrl);
}

#[test]
fn shard_url_without_host_fails() {
    let text = DOCUMENT.replace("https://n3.example.com/sapi", "mailto:someone@example.com");
    assert_eq!(error_of(&text), SchemaError::BadUrl);
}

#[test]
fn relative_shard_url_fails() {
    let text = DOCUMENT.replace("https://n3.example.com/sapi", "/sapi");
    assert_eq!(error_of(&text), SchemaError::BadUrl);
}

#[test]
fn text_that_is_no_document_fails() {
    assert_eq!(error_of(""), SchemaError::Syntax);
    assert_eq!(error_of("{"), SchemaError::Syntax);
    assert_eq!(error_of(&DOCUMENT[..DOCUMENT.len() - 1]), SchemaError::Syntax);
}

#[test]
fn document_that_is_no_object_fails() {
    assert_eq!(error_of("[]"), SchemaError::TypeMismatch);
    assert_eq!(error_of("null"), SchemaError::TypeMismatch);
    assert_eq!(error_of("\"success\""), SchemaError::TypeMismatch);
    assert_eq!(error_of("12"), SchemaError::TypeMismatch);
}

#[test]
fn missing_fields_fail() {
    assert_eq!(error_of("{}"), SchemaError::MissingField);
    let no_settings = DOCUMENT.replace(r#""settings":45345,"#, "");
    assert_eq!(error_of(&no_settings), SchemaError::MissingField);
    let no_gifts = DOCUMENT.replace(
        r#""gifts":[{"id":1,"price":2,"description":"Gift 1"},{"id":2,"price":3,"description":"Gift 2"}],"#,
        "",
    );
    assert_eq!(error_of(&no_gifts), SchemaError::MissingField);
    let no_gift_price = DOCUMENT.replace(r#"{"id":2,"price":3,"#, r#"{"id":2,"#);
    assert_eq!(error_of(&no_gift_price), SchemaError::MissingField);
}

#[test]
fn wrong_shapes_fail() {
    let text_for_number = DOCUMENT.replace(r#""settings":45345"#, r#""settings":"45345""#);
    assert_eq!(error_of(&text_for_number), SchemaError::TypeMismatch);
    let number_for_bool = DOCUMENT.replace(r#""is_private":false"#, r#""is_private":0"#);
    assert_eq!(error_of(&number_for_bool), SchemaError::TypeMismatch);
    let null_for_text = DOCUMENT.replace(r#""description":"Gift 1""#, r#""description":null"#);
    assert_eq!(error_of(&null_for_text), SchemaError::TypeMismatch);
    let object_for_array = DOCUMENT.replace(
        r#"[{"id":1,"price":2,"description":"Gift 1"},{"id":2,"price":3,"description":"Gift 2"}]"#,
        "{}",
    );
    assert_eq!(error_of(&object_for_array), SchemaError::TypeMismatch);
    let array_for_object = DOCUMENT.replace(
        r#"{"duration":"234ms","at":"2019-06-28T08:35:46+00:00"}"#,
        "[]",
    );
    assert_eq!(error_of(&array_for_object), SchemaError::TypeMismatch);
    let number_for_gift = DOCUMENT.replace(r#"{"id":1,"price":2,"description":"Gift 1"}"#, "7");
    assert_eq!(error_of(&number_for_gift), SchemaError::TypeMismatch);
    let number_for_duration = DOCUMENT.replace(r#""duration":"1h""#, r#""duration":3600"#);
    assert_eq!(error_of(&number_for_duration), SchemaError::TypeMismatch);
}

#[test]
fn numbers_outside_32_bits_fail() {
    let largest = DOCUMENT.replace(r#""settings":45345"#, r#""settings":4294967295"#);
    assert_eq!(Request::decode(&largest).unwrap().stream.settings, u32::MAX);
    let too_large = DOCUMENT.replace(r#""settings":45345"#, r#""settings":4294967296"#);
    assert_eq!(error_of(&too_large), SchemaError::TypeMismatch);
    let negative = DOCUMENT.replace(r#""settings":45345"#, r#""settings":-1"#);
    assert_eq!(error_of(&negative), SchemaError::TypeMismatch);
    let fraction = DOCUMENT.replace(r#""settings":45345"#, r#""settings":45345.0"#);
    assert_eq!(error_of(&fraction), SchemaError::TypeMismatch);
}

#[test]
fn bad_identifiers_fail() {
    let not_hex = DOCUMENT.replace("8d234120-0bda", "8d23412g-0bda");
    assert_eq!(error_of(&not_hex), SchemaError::BadIdentifier);
    let no_hyphens = DOCUMENT.replace(
        "8d234120-0bda-49b2-b7e0-fbd3912f6cbf",
        "8d2341200bda49b2b7e0fbd3912f6cbf",
    );
    assert_eq!(error_of(&no_hyphens), SchemaError::BadIdentifier);
    let braced = DOCUMENT.replace(
        "8d234120-0bda-49b2-b7e0-fbd3912f6cbf",
        "{8d234120-0bda-49b2-b7e0-fbd3912f6cbf}",
    );
    assert_eq!(error_of(&braced), SchemaError::BadIdentifier);
    let urn = DOCUMENT.replace(
        "8d234120-0bda-49b2-b7e0-fbd3912f6cbf",
        "urn:uuid:8d234120-0bda-49b2-b7e0-fbd3912f6cbf",
    );
    assert_eq!(error_of(&urn), SchemaError::BadIdentifier);
    let empty = DOCUMENT.replace("8d234120-0bda-49b2-b7e0-fbd3912f6cbf", "");
    assert_eq!(error_of(&empty), SchemaError::BadIdentifier);
}

#[test]
fn bad_durations_fail() {
    let no_unit = DOCUMENT.replace(r#""duration":"1h""#, r#""duration":"1""#);
    assert_eq!(error_of(&no_unit), SchemaError::BadDuration);
    let unknown_unit = DOCUMENT.replace(r#""duration":"60s""#, r#""duration":"60parsecs""#);
    assert_eq!(error_of(&unknown_unit), SchemaError::BadDuration);
    let empty = DOCUMENT.replace(r#""duration":"234ms""#, r#""duration":"""#);
    assert_eq!(error_of(&empty), SchemaError::BadDuration);
}

#[test]
fn bad_timestamps_fail() {
    let no_offset = DOCUMENT.replace("2019-06-28T08:35:46+00:00", "2019-06-28T08:35:46");
    assert_eq!(error_of(&no_offset), SchemaError::BadTimestamp);
    let no_such_day = DOCUMENT.replace("2019-06-28T08:35:46+00:00", "2019-06-31T08:35:46+00:00");
    assert_eq!(error_of(&no_such_day), SchemaError::BadTimestamp);
    let words = DOCUMENT.replace("2019-06-28T08:35:46+00:00", "yesterday");
    assert_eq!(error_of(&words), SchemaError::BadTimestamp);
}

#[test]
fn first_field_at_fault_gives_the_error() {
    let text = DOCUMENT
        .replace(r#""type":"success""#, r#""type":"unknown""#)
        .replace("https://n3.example.com/sapi", "not a url");
    assert_eq!(error_of(&text), SchemaError::BadTag);
    let text = DOCUMENT
        .replace("https://n3.example.com/sapi", "not a url")
        .replace(r#""duration":"234ms""#, r#""duration":"soon""#);
    assert_eq!(error_of(&text), SchemaError::BadUrl);
    let text = DOCUMENT
        .replace(r#"{"id":1,"price":2,"#, r#"{"id":1,"price":"2","#)
        .replace(r#"{"id":2,"price":3,"#, r#"{"id":2,"#);
    assert_eq!(error_of(&text), SchemaError::TypeMismatch);
}

#[test]
fn every_error_has_its_words() {
    assert_eq!(SchemaError::Syntax.message(), "the text is no document");
    assert_eq!(SchemaError::MissingField.message(), "a required field is missing");
    assert_eq!(SchemaError::TypeMismatch.message(), "a value has the wrong shape");
    assert_eq!(SchemaError::BadTag.message(), "the tag is unknown");
    assert_eq!(SchemaError::BadIdentifier.message(), "the identifier cannot be read");
    assert_eq!(SchemaError::BadUrl.message(), "the URL cannot be read");
    assert_eq!(SchemaError::BadDuration.message(), "the duration cannot be read");
    assert_eq!(SchemaError::BadTimestamp.message(), "the timestamp cannot be read");
}
