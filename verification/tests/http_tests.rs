use clap_adapters::http::parse_location;
use clap_adapters::{FromReader, HttpGet, JsonOf, LoadError};

#[test]
fn parse_location_normalizes_the_url() {
    let loc = parse_location("HTTP://EXAMPLE.com").unwrap();
    assert_eq!(loc, "http://example.com/");
}

#[test]
fn parse_location_keeps_port_and_path() {
    let loc = parse_location("http://127.0.0.1:8080/doc.json").unwrap();
    assert_eq!(loc, "http://127.0.0.1:8080/doc.json");
}

#[test]
fn parse_location_rejects_a_relative_path() {
    let err = parse_location("./config.json").unwrap_err();
    assert!(matches!(err, LoadError::LocationParse { .. }));
    assert!(!err.message().is_empty());
}

#[test]
fn get_response_decodes_into_a_located_value() {
    let body = b"{\"k\":\"v\"}".to_vec();
    let got = HttpGet::<JsonOf>::from_response("http://127.0.0.1:9000/".to_string(), 200, body)
        .unwrap();
    assert_eq!(got.url, "http://127.0.0.1:9000/");
    let expected: serde_json::Value = serde_json::from_str("{\"k\":\"v\"}").unwrap();
    assert_eq!(got.data.0, expected);
}

#[test]
fn non_success_status_is_a_fetch_error() {
    let body = b"{\"k\":\"v\"}".to_vec();
    let err = HttpGet::<JsonOf>::from_response("http://127.0.0.1:9000/".to_string(), 404, body)
        .unwrap_err();
    match err {
        LoadError::Fetch { location, message, status } => {
            assert_eq!(location, "http://127.0.0.1:9000/");
            assert_eq!(status, Some(404));
            assert!(!message.is_empty());
        }
        other => panic!("expected a fetch error, got {:?}", other),
    }
}

#[test]
fn redirect_status_is_not_a_success() {
    let err = HttpGet::<String>::from_response("http://127.0.0.1:9000/".to_string(), 300, Vec::new())
        .unwrap_err();
    assert!(matches!(err, LoadError::Fetch { status: Some(300), .. }));
    let ok = HttpGet::<String>::from_response("http://127.0.0.1:9000/".to_string(), 299, Vec::new());
    assert!(ok.is_ok());
}

#[test]
fn success_status_with_bad_body_is_a_decode_error() {
    let body = b"not json".to_vec();
    let err = HttpGet::<JsonOf>::from_response("http://127.0.0.1:9000/".to_string(), 200, body)
        .unwrap_err();
    assert!(matches!(err, LoadError::Decode { .. }));
}

#[test]
fn get_response_over_string_keeps_the_body_text() {
    let got = HttpGet::<String>::from_response(
        "http://127.0.0.1:9000/".to_string(),
        204,
        Vec::new(),
    );
    assert!(got.is_ok());
    assert_eq!(got.unwrap().data, "");
    let got = HttpGet::<String>::from_response(
        "http://127.0.0.1:9000/".to_string(),
        200,
        b"plain body".to_vec(),
    )
    .unwrap();
    assert_eq!(got.data, "plain body");
}
