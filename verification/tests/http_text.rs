use hive_gateway::http::{header_text, healtz, is_header_text, is_success_status};
use hive_gateway::text::{join_strings, string_from_bytes};

#[test]
fn success_statuses_are_the_200_class() {
    assert!(is_success_status(200));
    assert!(is_success_status(204));
    assert!(is_success_status(299));
    assert!(!is_success_status(199));
    assert!(!is_success_status(300));
    assert!(!is_success_status(404));
    assert!(!is_success_status(502));
}

#[test]
fn health_probe_answers_ok() {
    assert_eq!(healtz(), 200);
}

#[test]
fn header_text_reads_visible_ascii() {
    assert_eq!(header_text(b"alice@example.com"), Some("alice@example.com".to_string()));
    assert_eq!(header_text(b"a\tb"), Some("a\tb".to_string()));
    assert_eq!(header_text(b""), Some(String::new()));
}

#[test]
fn header_text_refuses_other_bytes() {
    assert_eq!(header_text(b"caf\xc3\xa9"), None);
    assert_eq!(header_text(b"line\nbreak"), None);
    assert_eq!(header_text(b"del\x7f"), None);
    assert!(!is_header_text(b"\x00"));
    assert!(is_header_text(b" ~"));
}

#[test]
fn bytes_become_characters_from_an_offset() {
    assert_eq!(string_from_bytes(b"Bearer abc", 7), "abc");
    assert_eq!(string_from_bytes(b"xyz", 3), "");
}

#[test]
fn join_puts_separator_between_parts() {
    let parts = vec!["a".to_string(), "b".to_string(), "c".to_string()];
    assert_eq!(join_strings(&parts, "\n"), "a\nb\nc");
    assert_eq!(join_strings(&vec!["one".to_string()], ", "), "one");
    assert_eq!(join_strings(&Vec::new(), ", "), "");
}
