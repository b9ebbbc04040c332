use mercury::{default_page_field_value, Article, DecodeError, Field, Json, TextDirection, Timestamp};

fn text(s: &str) -> Json {
    Json::Str(s.to_string())
}

fn object(members: Vec<(&str, Json)>) -> Json {
    Json::Object(members.into_iter().map(|(k, v)| (k.to_string(), v)).collect())
}

fn member<'a>(j: &'a Json, key: &str) -> Option<&'a Json> {
    match j {
        Json::Object(ms) => ms.iter().find(|(k, _)| k == key).map(|(_, v)| v),
        _ => None,
    }
}

fn full_article() -> Json {
    object(vec![
        ("author", text("Jane Doe")),
        ("content", text("<p>body</p>")),
        ("date_published", text("2016-09-16T20:56:00.000Z")),
        ("dek", Json::Null),
        ("direction", text("rtl")),
        ("excerpt", text("short")),
        ("lead_image_url", text("https://example.com/a.png")),
        ("next_page_url", Json::Null),
        ("rendered_pages", Json::Uint(2)),
        ("title", text("A title")),
        ("total_pages", Json::Uint(3)),
        ("url", text("https://example.com/article")),
        ("word_count", Json::Uint(1234)),
    ])
}

#[test]
fn is_ltr_tells_directions_apart() {
    assert_eq!(TextDirection::Ltr.is_ltr(), true);
    assert_eq!(TextDirection::Rtl.is_ltr(), false);
}

#[test]
fn is_rtl_tells_directions_apart() {
    assert_eq!(TextDirection::Ltr.is_rtl(), false);
    assert_eq!(TextDirection::Rtl.is_rtl(), true);
}

#[test]
fn direction_defaults_to_left_to_right() {
    assert_eq!(TextDirection::default(), TextDirection::Ltr);
}

#[test]
fn page_fields_default_to_one() {
    assert_eq!(default_page_field_value(), 1);
}

#[test]
fn absent_page_counts_read_as_one() {
    let a = Article::from_json(&object(vec![("url", text("https://example.com"))])).unwrap();
    assert_eq!(a.rendered_pages, 1);
    assert_eq!(a.total_pages, 1);
}

#[test]
fn absent_texts_read_as_empty() {
    let j = object(vec![("url", text("https://example.com")), ("author", text("A"))]);
    let a = Article::from_json(&j).unwrap();
    assert_eq!(a.content, "");
    assert_eq!(a.excerpt, "");
    assert_eq!(a.title, "");
    assert_eq!(a.author, Some("A".to_string()));
}

#[test]
fn absent_direction_reads_as_left_to_right() {
    let a = Article::from_json(&object(vec![("url", text("u"))])).unwrap();
    assert_eq!(a.direction, TextDirection::Ltr);
    assert_eq!(a.word_count, 0);
    assert_eq!(a.date_published, None);
}

#[test]
fn full_article_reads_every_field() {
    let a = Article::from_json(&full_article()).unwrap();
    assert_eq!(a.author, Some("Jane Doe".to_string()));
    assert_eq!(a.content, "<p>body</p>");
    assert_eq!(a.date_published, Some(Timestamp { secs: 1474059360, nanos: 0 }));
    assert_eq!(a.dek, None);
    assert_eq!(a.direction, TextDirection::Rtl);
    assert_eq!(a.excerpt, "short");
    assert_eq!(a.lead_image_url, Some("https://example.com/a.png".to_string()));
    assert_eq!(a.next_page_url, None);
    assert_eq!(a.rendered_pages, 2);
    assert_eq!(a.title, "A title");
    assert_eq!(a.total_pages, 3);
    assert_eq!(a.url, "https://example.com/article");
    assert_eq!(a.word_count, 1234);
}

#[test]
fn read_then_write_keeps_every_field() {
    let a = Article::from_json(&full_article()).unwrap();
    let out = a.to_json();
    let back = Article::from_json(&out).unwrap();
    assert_eq!(back, a);
}

#[test]
fn written_json_names_defaulted_members() {
    let a = Article::from_json(&object(vec![("url", text("u"))])).unwrap();
    let out = a.to_json();
    match &out {
        Json::Object(ms) => assert_eq!(ms.len(), 13),
        _ => panic!("not an object"),
    }
    assert_eq!(member(&out, "rendered_pages"), Some(&Json::Uint(1)));
    assert_eq!(member(&out, "total_pages"), Some(&Json::Uint(1)));
    assert_eq!(member(&out, "word_count"), Some(&Json::Uint(0)));
    assert_eq!(member(&out, "title"), Some(&text("")));
    assert_eq!(member(&out, "direction"), Some(&text("ltr")));
    assert_eq!(member(&out, "author"), Some(&Json::Null));
    assert_eq!(member(&out, "date_published"), Some(&Json::Null));
    assert_eq!(Article::from_json(&out).unwrap(), a);
}

#[test]
fn date_is_written_in_rfc3339_form() {
    let j = object(vec![("url", text("u")), ("date_published", text("2016-09-16 20:56:00Z"))]);
    let a = Article::from_json(&j).unwrap();
    let out = a.to_json();
    assert_eq!(member(&out, "date_published"), Some(&text("2016-09-16T20:56:00+00:00")));
}

#[test]
fn date_with_offset_reads_as_utc_instant() {
    let j = object(vec![("url", text("u")), ("date_published", text("1970-01-01T01:00:01.5+01:00"))]);
    let a = Article::from_json(&j).unwrap();
    assert_eq!(a.date_published, Some(Timestamp { secs: 1, nanos: 500_000_000 }));
}

#[test]
fn unreadable_date_is_invalid() {
    let j = object(vec![("url", text("u")), ("date_published", text("yesterday"))]);
    assert_eq!(Article::from_json(&j), Err(DecodeError::Invalid(Field::DatePublished)));
}

#[test]
fn non_object_is_no_article() {
    assert_eq!(Article::from_json(&Json::Array(vec![])), Err(DecodeError::NotAnObject));
    assert_eq!(Article::from_json(&Json::Null), Err(DecodeError::NotAnObject));
}

#[test]
fn missing_url_is_reported() {
    let j = object(vec![("title", text("T"))]);
    assert_eq!(Article::from_json(&j), Err(DecodeError::Missing(Field::Url)));
}

#[test]
fn url_of_wrong_kind_is_invalid() {
    let j = object(vec![("url", Json::Uint(5))]);
    assert_eq!(Article::from_json(&j), Err(DecodeError::Invalid(Field::Url)));
    let j = object(vec![("url", Json::Null)]);
    assert_eq!(Article::from_json(&j), Err(DecodeError::Invalid(Field::Url)));
}

#[test]
fn null_content_is_invalid() {
    let j = object(vec![("url", text("u")), ("content", Json::Null)]);
    assert_eq!(Article::from_json(&j), Err(DecodeError::Invalid(Field::Content)));
}

#[test]
fn counts_must_be_unsigned_integers() {
    let j = object(vec![("url", text("u")), ("word_count", Json::Int(-3))]);
    assert_eq!(Article::from_json(&j), Err(DecodeError::Invalid(Field::WordCount)));
    let j = object(vec![("url", text("u")), ("rendered_pages", Json::Float("1.5".to_string()))]);
    assert_eq!(Article::from_json(&j), Err(DecodeError::Invalid(Field::RenderedPages)));
    let j = object(vec![("url", text("u")), ("total_pages", Json::Uint(u64::MAX))]);
    assert_eq!(Article::from_json(&j).unwrap().total_pages, u64::MAX);
}

#[test]
fn unknown_direction_is_invalid() {
    let j = object(vec![("url", text("u")), ("direction", text("sideways"))]);
    assert_eq!(Article::from_json(&j), Err(DecodeError::Invalid(Field::Direction)));
}

#[test]
fn first_bad_member_in_schema_order_is_reported() {
    let j = object(vec![("word_count", text("many")), ("author", Json::Uint(1))]);
    assert_eq!(Article::from_json(&j), Err(DecodeError::Invalid(Field::Author)));
}

#[test]
fn first_of_repeated_keys_counts() {
    let j = object(vec![("url", text("first")), ("url", text("second"))]);
    assert_eq!(Article::from_json(&j).unwrap().url, "first");
}

#[test]
fn unknown_members_are_ignored() {
    let j = object(vec![("url", text("u")), ("domain", text("example.com"))]);
    assert!(Article::from_json(&j).is_ok());
}

#[test]
fn timestamp_range_and_leap_seconds() {
    assert!(Timestamp { secs: 59, nanos: 1_500_000_000 }.is_valid());
    assert!(Timestamp { secs: -1, nanos: 1_000_000_000 }.is_valid());
    assert!(!Timestamp { secs: 58, nanos: 1_000_000_000 }.is_valid());
    assert!(!Timestamp { secs: 59, nanos: 2_000_000_000 }.is_valid());
    assert!(Timestamp { secs: mercury::timestamp::MAX_SECONDS, nanos: 0 }.is_valid());
    assert!(!Timestamp { secs: mercury::timestamp::MAX_SECONDS + 1, nanos: 0 }.is_valid());
    assert!(Timestamp { secs: mercury::timestamp::MIN_SECONDS, nanos: 0 }.is_valid());
    assert!(!Timestamp { secs: mercury::timestamp::MIN_SECONDS - 1, nanos: 0 }.is_valid());
}

#[test]
fn extreme_instants_round_trip() {
    for secs in [mercury::timestamp::MIN_SECONDS, mercury::timestamp::MAX_SECONDS, -1, 0] {
        let mut a = Article::from_json(&object(vec![("url", text("u"))])).unwrap();
        a.date_published = Some(Timestamp { secs, nanos: 123_456_789 });
        assert!(a.is_valid());
        assert_eq!(Article::from_json(&a.to_json()).unwrap(), a);
    }
}

#[test]
fn leap_second_round_trips() {
    let mut a = Article::from_json(&object(vec![("url", text("u"))])).unwrap();
    a.date_published = Some(Timestamp { secs: 1483228799, nanos: 1_250_000_000 });
    assert!(a.is_valid());
    assert_eq!(Article::from_json(&a.to_json()).unwrap(), a);
}

#[test]
fn out_of_range_date_cannot_be_written() {
    let mut a = Article::from_json(&object(vec![("url", text("u"))])).unwrap();
    a.date_published = Some(Timestamp { secs: i64::MAX, nanos: 0 });
    assert!(!a.is_valid());
}
