use namecheap_client::response::{
    classify_envelope, command_payload, fallback, is_success, non_blank, parse_bool,
    parse_optional_bool, Envelope, RawError,
};
use namecheap_client::Error;

fn raw(number: &str, message: &str) -> RawError {
    RawError { number: number.to_string(), message: message.to_string() }
}

fn envelope(status: &str, errors: Vec<RawError>) -> Envelope {
    Envelope { status: status.to_string(), errors }
}

fn decode_error(msg: &str) -> quick_xml::DeError {
    quick_xml::DeError::Custom(msg.to_string())
}

#[test]
fn parse_bool_accepts_namecheap_spellings() {
    assert_eq!(parse_bool("true"), Some(true));
    assert_eq!(parse_bool("FALSE"), Some(false));
    assert_eq!(parse_bool(" Yes "), Some(true));
    assert_eq!(parse_bool("0"), Some(false));
    assert_eq!(parse_bool("enabled"), Some(true));
    assert_eq!(parse_bool("maybe"), None);
}

#[test]
fn parse_bool_covers_every_spelling_and_unicode_whitespace() {
    for word in ["true", "yes", "1", "enabled", "TRUE", "Yes", "ENABLED"] {
        assert_eq!(parse_bool(word), Some(true), "{word}");
    }
    for word in ["false", "no", "0", "disabled", "No", "DISABLED"] {
        assert_eq!(parse_bool(word), Some(false), "{word}");
    }
    assert_eq!(parse_bool("\t\n yes\r\n"), Some(true));
    assert_eq!(parse_bool("\u{a0}no\u{3000}"), Some(false));
    assert_eq!(parse_bool(""), None);
    assert_eq!(parse_bool("   "), None);
    assert_eq!(parse_bool("t rue"), None);
    assert_eq!(parse_bool("2"), None);
}

// The envelope below is what
// `<ApiResponse Status="ERROR"><Errors><Error Number="2019166">Domain not found</Error>
//  <Error Number="3031510">Insufficient funds</Error></Errors><CommandResponse /></ApiResponse>`
// decodes into.
#[test]
fn error_envelope_becomes_api_error() {
    let env = envelope(
        "ERROR",
        vec![raw("2019166", "Domain not found"), raw("3031510", "Insufficient funds")],
    );
    match classify_envelope(200, "<ApiResponse Status=\"ERROR\"/>", Ok(env)) {
        Err(Error::Api(api)) => {
            assert!(api.has_code("2019166"));
            assert!(api.has_code("3031510"));
            assert_eq!(api.first().unwrap().message, "Domain not found");
            assert_eq!(api.errors.len(), 2);
        }
        other => panic!("expected Error::Api, got {other:?}"),
    }
}

#[test]
fn non_success_status_with_garbage_body_is_unexpected_status() {
    let body = "<html>503</html>";
    let result = classify_envelope(500, body, Err(decode_error("not an ApiResponse")));
    assert!(matches!(result, Err(Error::UnexpectedStatus { .. })));
    match result {
        Err(Error::UnexpectedStatus { status, body: kept }) => {
            assert_eq!(status, 500);
            assert_eq!(kept, body);
        }
        other => panic!("expected UnexpectedStatus, got {other:?}"),
    }
}

#[test]
fn ok_without_command_response_is_empty_response() {
    let env = envelope("OK", Vec::new());
    assert!(classify_envelope(200, "<ApiResponse Status=\"OK\"/>", Ok(env)).is_ok());
    let result = command_payload::<()>(None);
    assert!(matches!(result, Err(Error::EmptyResponse)));
}

#[test]
fn ok_status_is_case_insensitive_and_payload_is_returned() {
    assert!(classify_envelope(200, "", Ok(envelope("ok", Vec::new()))).is_ok());
    assert!(classify_envelope(200, "", Ok(envelope("Ok", Vec::new()))).is_ok());
    // Even on a non-success HTTP status, an OK envelope is authoritative.
    assert!(classify_envelope(503, "", Ok(envelope("OK", Vec::new()))).is_ok());
    assert_eq!(command_payload(Some(42u8)).unwrap(), 42);
}

#[test]
fn api_error_messages_are_trimmed_and_numbers_kept() {
    let env = envelope("ERROR", vec![raw("1011102", "\n   Parameter APIKey is missing  \n")]);
    match classify_envelope(200, "", Ok(env)) {
        Err(Error::Api(api)) => {
            assert_eq!(api.errors[0].number, "1011102");
            assert_eq!(api.errors[0].message, "Parameter APIKey is missing");
        }
        other => panic!("expected Error::Api, got {other:?}"),
    }
    // Any status other than OK is an API error, with or without entries.
    match classify_envelope(200, "", Ok(envelope("FAILED", Vec::new()))) {
        Err(Error::Api(api)) => assert!(api.errors.is_empty()),
        other => panic!("expected Error::Api, got {other:?}"),
    }
}

#[test]
fn blank_status_falls_back_on_the_http_status() {
    let result = classify_envelope(502, "gateway", Ok(envelope("  ", Vec::new())));
    assert!(matches!(result, Err(Error::UnexpectedStatus { status: 502, .. })));
    let result = classify_envelope(200, "<other/>", Ok(envelope("", Vec::new())));
    assert!(matches!(result, Err(Error::Decode(_))));
}

#[test]
fn decode_failure_on_success_status_is_decode_error() {
    let result = classify_envelope(200, "garbage", Err(decode_error("boom")));
    match result {
        Err(Error::Decode(quick_xml::DeError::Custom(msg))) => assert_eq!(msg, "boom"),
        other => panic!("expected Decode, got {other:?}"),
    }
    let result: Result<(), Error> = fallback(204, "", None);
    match result {
        Err(Error::Decode(quick_xml::DeError::Custom(msg))) => {
            assert_eq!(msg, "response was not a Namecheap ApiResponse document")
        }
        other => panic!("expected Decode, got {other:?}"),
    }
}

#[test]
fn success_range_is_two_hundreds() {
    assert!(!is_success(199));
    assert!(is_success(200));
    assert!(is_success(299));
    assert!(!is_success(300));
    assert!(!is_success(404));
}

#[test]
fn optional_attribute_values() {
    assert_eq!(non_blank(None), None);
    assert_eq!(non_blank(Some("   ")), None);
    assert_eq!(non_blank(Some(" 10.87 ")), Some("10.87"));
    assert_eq!(parse_optional_bool(None), Ok(None));
    assert_eq!(parse_optional_bool(Some("")), Ok(None));
    assert_eq!(parse_optional_bool(Some(" true")), Ok(Some(true)));
    assert_eq!(parse_optional_bool(Some("no")), Ok(Some(false)));
    assert_eq!(parse_optional_bool(Some("perhaps")), Err(()));
}

#[test]
fn envelope_helpers() {
    assert!(envelope("oK", Vec::new()).is_ok());
    assert!(!envelope("ERROR", Vec::new()).is_ok());
    assert!(!envelope(" OK", Vec::new()).is_ok());
    let api = envelope("ERROR", vec![raw("1", " a "), raw("2", "b")]).into_api_error();
    assert_eq!(api.errors.len(), 2);
    assert_eq!(api.errors[0].message, "a");
    assert_eq!(api.errors[1].number, "2");
}
