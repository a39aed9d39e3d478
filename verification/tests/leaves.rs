use stream_request::instant::Instant;
use stream_request::reading::gifts_from_json;
use stream_request::request::RequestType;
use stream_request::shard_url::ShardUrl;
use stream_request::span::{is_bounded, Span, WEIGHT_LIMIT};
use stream_request::user_id::UserId;
use stream_request::writing::gifts_to_json;

#[test]
fn tag_tokens_decode_to_their_variants() {
    assert_eq!(RequestType::from_token("success"), Some(RequestType::Success));
    assert_eq!(RequestType::from_token("failure"), Some(RequestType::Failure));
    assert_eq!(RequestType::from_token("pending"), None);
    assert_eq!(RequestType::from_token(""), None);
    assert_eq!(RequestType::from_token("success "), None);
    assert_eq!(RequestType::from_token("SUCCESS"), None);
}

#[test]
fn tags_are_written_as_their_tokens() {
    assert_eq!(RequestType::Success.token(), "success");
    assert_eq!(RequestType::Failure.token(), "failure");
    assert_eq!(
        RequestType::from_token(RequestType::Success.token()),
        Some(RequestType::Success)
    );
    assert_eq!(
        RequestType::from_token(RequestType::Failure.token()),
        Some(RequestType::Failure)
    );
}

#[test]
fn duration_234ms_is_234_milliseconds() {
    let span = Span::parse("234ms").unwrap();
    assert_eq!(span.as_secs(), 0);
    assert_eq!(span.subsec_nanos(), 234_000_000);
    assert_eq!(span, Span::from_millis(234).unwrap());
    assert_eq!(span, Span::new(0, 234_000_000).unwrap());
}

#[test]
fn duration_1h_is_3600_seconds() {
    let span = Span::parse("1h").unwrap();
    assert_eq!(span.as_secs(), 3600);
    assert_eq!(span.subsec_nanos(), 0);
    assert_eq!(span, Span::from_secs(3600).unwrap());
    assert_eq!(span, Span::parse("3600s").unwrap());
    assert_eq!(span, Span::parse("60m").unwrap());
}

#[test]
fn durations_are_summed_over_their_units() {
    let span = Span::parse("1h 30m 15s 200ms").unwrap();
    assert_eq!(span.as_secs(), 3600 + 30 * 60 + 15);
    assert_eq!(span.subsec_nanos(), 200_000_000);
    let span = Span::parse("2m 2m 500ms 500ms").unwrap();
    assert_eq!(span.as_secs(), 241);
    assert_eq!(span.subsec_nanos(), 0);
}

#[test]
fn durations_are_written_in_canonical_spelling() {
    assert_eq!(Span::from_secs(3600).unwrap().to_text(), "1h");
    assert_eq!(Span::parse("60s").unwrap().to_text(), "1m");
    assert_eq!(Span::from_millis(234).unwrap().to_text(), "234ms");
    assert_eq!(Span::from_millis(61_500).unwrap().to_text(), "1m 1s 500ms");
    assert_eq!(Span::from_secs(0).unwrap().to_text(), "0s");
    assert_eq!(
        Span::new(3599, 999_999_999).unwrap().to_text(),
        "59m 59s 999ms 999us 999ns"
    );
}

#[test]
fn written_durations_read_back() {
    for (secs, nanos) in [
        (0_u64, 0_u32),
        (0, 1),
        (59, 999_999_999),
        (3600, 0),
        (86_399, 1_000),
        (31_557_600, 0),
        (2_630_016 * 11 + 86_400 * 30 + 5, 123_456_789),
        (31_557_600 * 9_999_999_999, 999_999_999),
    ] {
        let span = Span::new(secs, nanos).unwrap();
        assert_eq!(Span::parse(&span.to_text()), Some(span));
        assert_eq!(span.as_secs(), secs);
        assert_eq!(span.subsec_nanos(), nanos);
    }
}

#[test]
fn spans_have_less_than_a_second_of_nanoseconds() {
    assert_eq!(Span::new(1, 1_000_000_000), None);
    assert_eq!(Span::new(1, u32::MAX), None);
    assert!(Span::new(1, 999_999_999).is_some());
}

#[test]
fn from_millis_splits_seconds_and_nanoseconds() {
    let span = Span::from_millis(1_999).unwrap();
    assert_eq!(span.as_secs(), 1);
    assert_eq!(span.subsec_nanos(), 999_000_000);
    let span = Span::from_millis(1_000).unwrap();
    assert_eq!(span.as_secs(), 1);
    assert_eq!(span.subsec_nanos(), 0);
}

#[test]
fn texts_beyond_the_weight_limit_are_no_durations() {
    assert_eq!(WEIGHT_LIMIT, 100_000_000_000);
    assert!(is_bounded("1h"));
    assert!(is_bounded("59m 59s 999ms 999us 999ns"));
    assert!(is_bounded(""));
    assert!(is_bounded("9999999999s"));
    assert!(!is_bounded("99999999999s"));
    assert!(!is_bounded("18446744073709551615s 500ms 500ms"));
    assert_eq!(Span::parse("99999999999s"), None);
    assert_eq!(Span::parse("18446744073709551615s 500ms 500ms"), None);
    assert_eq!(Span::new(u64::MAX, 0), None);
    assert_eq!(Span::from_secs(31_557_600 * 10_000_000_000), None);
}

#[test]
fn weight_counts_digits_between_letters() {
    // one group of ten digits weighs 10^10, and the letter and the open group one each
    assert!(is_bounded("1234567890s"));
    // digits on both sides of a blank are one group
    assert!(!is_bounded("123456 789012s"));
    // nine groups of ten digits are within the limit, ten are beyond it
    let group = "1234567890s";
    assert!(is_bounded(&group.repeat(9)));
    assert!(!is_bounded(&group.repeat(10)));
}

#[test]
fn identifiers_are_read_from_the_hyphenated_form() {
    let id = UserId::parse("8d234120-0bda-49b2-b7e0-fbd3912f6cbf").unwrap();
    assert_eq!(id.as_u128(), 0x8d2341200bda49b2b7e0fbd3912f6cbf_u128);
    assert_eq!(id, UserId::new(0x8d2341200bda49b2b7e0fbd3912f6cbf_u128).unwrap());
    let upper = UserId::parse("8D234120-0BDA-49B2-B7E0-FBD3912F6CBF").unwrap();
    assert_eq!(upper, id);
    assert_eq!(UserId::parse("8d2341200bda49b2b7e0fbd3912f6cbf"), None);
    assert_eq!(UserId::parse("{8d234120-0bda-49b2-b7e0-fbd3912f6cbf}"), None);
    assert_eq!(UserId::parse("8d234120-0bda-49b2-b7e0-fbd3912f6cb"), None);
    assert_eq!(UserId::parse("8d234120-0bda-49b2-b7e0_fbd3912f6cbf"), None);
}

#[test]
fn identifiers_are_written_in_lower_case_with_hyphens() {
    let id = UserId::new(0x8d2341200bda49b2b7e0fbd3912f6cbf_u128).unwrap();
    assert_eq!(id.to_text(), "8d234120-0bda-49b2-b7e0-fbd3912f6cbf");
    assert_eq!(UserId::new(0).unwrap().to_text(), "00000000-0000-0000-0000-000000000000");
    assert_eq!(
        UserId::new(u128::MAX).unwrap().to_text(),
        "ffffffff-ffff-ffff-ffff-ffffffffffff"
    );
    assert_eq!(UserId::parse(&id.to_text()), Some(id));
}

#[test]
fn locations_are_absolute_urls_with_a_host() {
    let url = ShardUrl::parse("https://n3.example.com/sapi").unwrap();
    assert_eq!(url.as_str(), "https://n3.example.com/sapi");
    assert_eq!(url.host_str(), "n3.example.com");
    assert_eq!(url.to_text(), "https://n3.example.com/sapi");
    assert_eq!(ShardUrl::parse("not a url"), None);
    assert_eq!(ShardUrl::parse("/sapi"), None);
    assert_eq!(ShardUrl::parse("mailto:someone@example.com"), None);
    assert_eq!(ShardUrl::parse("data:text/plain,Stuff"), None);
    assert_eq!(ShardUrl::parse(""), None);
}

#[test]
fn locations_without_a_host_are_none() {
    assert!(url::Url::parse("foo:///bar").is_ok());
    assert_eq!(ShardUrl::parse("foo:///bar"), None);
    assert_eq!(ShardUrl::parse("foo://"), None);
    assert_eq!(ShardUrl::parse("file:///etc/hosts"), None);
    assert!(ShardUrl::parse("foo://host/bar").is_some());
}

#[test]
fn locations_are_kept_as_the_url_crate_writes_them() {
    let url = ShardUrl::parse("HTTPS://N3.Example.COM:443/a/../sapi?x=1#top").unwrap();
    assert_eq!(url.as_str(), "https://n3.example.com/sapi?x=1#top");
    assert_eq!(url.host_str(), "n3.example.com");
    assert_eq!(ShardUrl::parse(url.as_str()), Some(url.clone()));
    let bare = ShardUrl::parse("https://example.net").unwrap();
    assert_eq!(bare.as_str(), "https://example.net/");
    let numeric = ShardUrl::parse("http://127.0.0.1:8080/").unwrap();
    assert_eq!(numeric.host_str(), "127.0.0.1");
}

#[test]
fn instants_are_read_with_their_offset() {
    let at = Instant::parse("2019-06-28T08:35:46+00:00").unwrap();
    assert_eq!(at.timestamp(), 1561710946);
    assert_eq!(at.subsec_nanos(), 0);
    assert_eq!(Instant::parse("2019-06-28T08:35:46Z"), Some(at));
    assert_eq!(Instant::parse("2019-06-28T10:35:46+02:00"), Some(at));
    assert_eq!(Instant::parse("2019-06-28T03:35:46-05:00"), Some(at));
    assert_eq!(Instant::new(1561710946, 0), Some(at));
    let fine = Instant::parse("2019-06-28T08:35:46.25Z").unwrap();
    assert_eq!(fine.timestamp(), 1561710946);
    assert_eq!(fine.subsec_nanos(), 250_000_000);
    assert_eq!(Instant::parse("2019-06-28"), None);
    assert_eq!(Instant::parse("2019-13-28T08:35:46Z"), None);
}

#[test]
fn instants_are_written_in_utc() {
    let at = Instant::parse("2019-06-28T10:35:46+02:00").unwrap();
    assert_eq!(at.to_text(), "2019-06-28T08:35:46Z");
    assert_eq!(Instant::new(0, 0).unwrap().to_text(), "1970-01-01T00:00:00Z");
    assert_eq!(Instant::new(-1, 500_000_000).unwrap().to_text(), "1969-12-31T23:59:59.500Z");
    assert_eq!(Instant::parse(&at.to_text()), Some(at));
}

#[test]
fn instants_outside_the_calendar_are_none() {
    assert_eq!(Instant::new(i64::MAX, 0), None);
    assert_eq!(Instant::new(i64::MIN, 0), None);
    assert_eq!(Instant::new(0, 2_000_000_000), None);
}

#[test]
fn gifts_keep_their_order() {
    let docs = stream_request::json::Json::parse(
        r#"[{"id":3,"price":1,"description":"c"},{"id":1,"price":2,"description":"a"},{"id":2,"price":3,"description":"b"}]"#,
    )
    .unwrap();
    let stream_request::json::Json::Array(items) = docs else {
        panic!("no array");
    };
    let gifts = gifts_from_json(&items).unwrap();
    assert_eq!(gifts.len(), 3);
    assert_eq!(gifts[0].id, 3);
    assert_eq!(gifts[1].id, 1);
    assert_eq!(gifts[2].id, 2);
    assert_eq!(gifts[2].description, "b");
    let back = gifts_to_json(&gifts);
    assert_eq!(gifts_from_json(&back).unwrap(), gifts);
}
