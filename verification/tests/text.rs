use namecheap_client::text::{
    decimal_string, eq_ignore_ascii_case, find_char, is_whitespace, join, to_strings, trim,
};
use namecheap_client::ApiError;
use namecheap_client::ApiErrorEntry;

#[test]
fn trim_matches_std() {
    for s in ["", " ", "a", "  a b  ", "\u{2003}x\u{85}", "\n\tq\r", "\u{200b}z"] {
        assert_eq!(trim(s), s.trim(), "{s:?}");
    }
}

#[test]
fn whitespace_matches_std() {
    for c in ['\u{0}', ' ', '\t', '\u{b}', 'a', '\u{85}', '\u{a0}', '\u{1680}', '\u{180e}', '\u{2000}', '\u{200a}', '\u{200b}', '\u{2028}', '\u{202f}', '\u{205f}', '\u{3000}', '\u{feff}'] {
        assert_eq!(is_whitespace(c), c.is_whitespace(), "{c:?}");
    }
}

#[test]
fn case_insensitive_comparison() {
    assert!(eq_ignore_ascii_case("OK", "ok"));
    assert!(eq_ignore_ascii_case("Ok", "oK"));
    assert!(!eq_ignore_ascii_case("OK", "OK "));
    assert!(!eq_ignore_ascii_case("ÄB", "äb"));
    assert!(eq_ignore_ascii_case("", ""));
}

#[test]
fn decimal_rendering() {
    for n in [0u64, 7, 10, 99, 100, 4096, u64::MAX] {
        assert_eq!(decimal_string(n), n.to_string());
    }
}

#[test]
fn join_and_find() {
    let parts = to_strings(&["a", "bb", "ccc"]);
    assert_eq!(join(&parts, ","), "a,bb,ccc");
    assert_eq!(join(&Vec::new(), ","), "");
    assert_eq!(join(&to_strings(&["x"]), ", "), "x");
    assert_eq!(find_char("example.co.uk", '.'), Some(7));
    assert_eq!(find_char("nodot", '.'), None);
    assert_eq!(find_char("é.x", '.'), Some(1));
}

#[test]
fn api_error_text_and_lookup() {
    let api = ApiError {
        errors: vec![
            ApiErrorEntry { number: "2019166".to_string(), message: "Domain not found".to_string() },
            ApiErrorEntry { number: "3031510".to_string(), message: "Insufficient funds".to_string() },
        ],
    };
    assert_eq!(
        api.to_string(),
        "Namecheap API error: [2019166] Domain not found; [3031510] Insufficient funds"
    );
    assert!(api.has_code("3031510"));
    assert!(!api.has_code("303151"));
    assert_eq!(api.first().unwrap().number, "2019166");
    let empty = ApiError { errors: Vec::new() };
    assert_eq!(empty.to_string(), "Namecheap API error");
    assert!(empty.first().is_none());
    assert!(!empty.has_code("1"));
}
