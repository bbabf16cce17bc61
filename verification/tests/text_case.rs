use edge_gateway::selector::{country_key_of, is_country_selector};
use edge_gateway::text::{collect_chars, to_lowercase, to_uppercase};

#[test]
fn chars_come_in_order() {
    assert_eq!(collect_chars(""), Vec::<char>::new());
    assert_eq!(collect_chars("a:1"), vec!['a', ':', '1']);
    assert_eq!(collect_chars("日本é"), vec!['日', '本', 'é']);
}

#[test]
fn ascii_text_is_recased_letter_by_letter() {
    assert_eq!(to_uppercase("id"), "ID");
    assert_eq!(to_uppercase("Id-9.z{`"), "ID-9.Z{`");
    assert_eq!(to_uppercase(""), "");
    assert_eq!(to_lowercase("WebSocket"), "websocket");
    assert_eq!(to_lowercase("AZ[@az"), "az[@az");
}

#[test]
fn other_text_takes_the_unicode_mappings() {
    assert_eq!(to_uppercase("idé"), "IDÉ");
    assert_eq!(to_uppercase("straße"), "STRASSE");
    assert_eq!(to_lowercase("ÀB"), "àb");
    assert_eq!(to_lowercase("websoc\u{212A}et"), "websocket");
}

#[test]
fn two_leading_ascii_letters_name_a_country() {
    for selector in ["id", "ID", "Id", "iD", "idx", "ab.example.com:443", "not-an-endpoint!!", "zz9"] {
        assert!(is_country_selector(selector), "{:?}", selector);
    }
    for selector in ["", "i", "1d", "i1", "1.2.3.4:443", "a-b:1", "éd", "aé", ":id", " id"] {
        assert!(!is_country_selector(selector), "{:?}", selector);
    }
}

#[test]
fn country_classification_and_key_ignore_case() {
    for selector in ["id", "ID", "Id", "iD"] {
        assert!(is_country_selector(selector));
        assert_eq!(country_key_of(selector), "ID");
    }
}

#[test]
fn the_whole_selector_is_uppercased() {
    assert_eq!(country_key_of("ab.example.com:443"), "AB.EXAMPLE.COM:443");
    assert_eq!(country_key_of("not-an-endpoint!!"), "NOT-AN-ENDPOINT!!");
}
