use mercury::{build_url, parse_response, request_url_text, DecodeError, Error, Field, Json, TextDirection, ENDPOINT};

fn text(s: &str) -> Json {
    Json::Str(s.to_string())
}

fn object(members: Vec<(&str, Json)>) -> Json {
    Json::Object(members.into_iter().map(|(k, v)| (k.to_string(), v)).collect())
}

fn api_message(r: Result<mercury::Article, Error>) -> String {
    match r {
        Err(Error::Api(m)) => m,
        other => panic!("expected an API error, got {:?}", other),
    }
}

#[test]
fn failure_envelope_message_is_surfaced() {
    let r = parse_response(&object(vec![("message", text("Invalid URL"))]));
    assert_eq!(api_message(r), "Invalid URL");
}

#[test]
fn failure_envelope_messages_is_the_fallback() {
    let r = parse_response(&object(vec![("messages", text("rate limited"))]));
    assert_eq!(api_message(r), "rate limited");
}

#[test]
fn message_wins_over_messages() {
    let r = parse_response(&object(vec![("messages", text("b")), ("message", text("a"))]));
    assert_eq!(api_message(r), "a");
}

#[test]
fn null_message_falls_back_to_messages() {
    let r = parse_response(&object(vec![("message", Json::Null), ("messages", text("x"))]));
    assert_eq!(api_message(r), "x");
}

#[test]
fn empty_object_is_a_failure_with_empty_message() {
    assert_eq!(api_message(parse_response(&object(vec![]))), "");
}

#[test]
fn success_body_yields_article() {
    let body = object(vec![
        ("url", text("https://example.com")),
        ("title", text("T")),
        ("content", text("<p>x</p>")),
    ]);
    let a = parse_response(&body).unwrap();
    assert_eq!(a.url, "https://example.com");
    assert_eq!(a.title, "T");
    assert_eq!(a.content, "<p>x</p>");
    assert_eq!(a.word_count, 0);
    assert_eq!(a.rendered_pages, 1);
    assert_eq!(a.total_pages, 1);
    assert_eq!(a.direction, TextDirection::Ltr);
}

#[test]
fn article_shape_is_tried_first() {
    let body = object(vec![("url", text("u")), ("message", text("m"))]);
    assert_eq!(parse_response(&body).unwrap().url, "u");
}

#[test]
fn body_of_neither_shape_is_a_decode_error() {
    match parse_response(&object(vec![("message", Json::Uint(5))])) {
        Err(Error::Decode(e)) => assert_eq!(e, DecodeError::Missing(Field::Url)),
        other => panic!("unexpected {:?}", other),
    }
    match parse_response(&object(vec![("messages", Json::Null)])) {
        Err(Error::Decode(e)) => assert_eq!(e, DecodeError::Missing(Field::Url)),
        other => panic!("unexpected {:?}", other),
    }
    match parse_response(&Json::Array(vec![text("a")])) {
        Err(Error::Decode(e)) => assert_eq!(e, DecodeError::NotAnObject),
        other => panic!("unexpected {:?}", other),
    }
}

#[test]
fn request_url_appends_resource_unescaped() {
    assert_eq!(
        request_url_text("https://example.com/a b"),
        "https://mercury.postlight.com/parser?url=https://example.com/a b"
    );
    assert_eq!(request_url_text(""), format!("{}?url=", ENDPOINT));
}

#[test]
fn build_url_reads_composed_text() {
    let uri = build_url("https://example.com").unwrap();
    assert_eq!(uri.as_ref(), "https://mercury.postlight.com/parser?url=https://example.com");
    assert_eq!(uri.query(), Some("url=https://example.com"));
    assert_eq!(uri.path(), "/parser");
}

#[test]
fn build_url_passes_control_characters_to_the_uri_reader() {
    let uri = build_url("\u{1}\n").unwrap();
    assert_eq!(uri.query(), Some("url=\u{1}\n"));
}

#[test]
fn uri_error_converts_to_uri_variant() {
    let e = "".parse::<hyper::Uri>().unwrap_err();
    assert!(matches!(Error::from(e), Error::Uri(_)));
}
