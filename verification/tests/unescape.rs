use details_form::json::{escape_string, unescape_string};

#[test]
fn unescape_inverts_escape() {
    let samples = vec![
        "",
        "plain text",
        "a\"b\\c",
        "line\nbreak\ttab\rreturn",
        "\u{8}\u{c}",
        "\u{0}\u{1}\u{1f}",
        "caf\u{e9} \u{2603} mixed \"and\\ escaped\"\n",
    ];
    for s in samples {
        let escaped = escape_string(s);
        assert_eq!(unescape_string(&escaped), Some(s.to_string()));
    }
}

#[test]
fn escape_writes_the_expected_forms() {
    assert_eq!(escape_string("a\"b"), "a\\\"b");
    assert_eq!(escape_string("a\\b"), "a\\\\b");
    assert_eq!(escape_string("a\nb\tc\rd"), "a\\nb\\tc\\rd");
    assert_eq!(escape_string("\u{8}\u{c}"), "\\b\\f");
    assert_eq!(escape_string("\u{1}\u{1f}"), "\\u0001\\u001f");
    assert_eq!(escape_string("caf\u{e9}"), "caf\u{e9}");
}

#[test]
fn unescape_rejects_what_the_escaper_never_writes() {
    assert_eq!(unescape_string("\\"), None);
    assert_eq!(unescape_string("\\x"), None);
    assert_eq!(unescape_string("bare\"quote"), None);
    assert_eq!(unescape_string("raw\u{1}control"), None);
    assert_eq!(unescape_string("\\u12"), None);
    assert_eq!(unescape_string("\\u0041"), None);
    assert_eq!(unescape_string("\\u00ff"), None);
    assert_eq!(unescape_string("\\u00g1"), None);
}

#[test]
fn unescape_reads_the_escaped_forms() {
    assert_eq!(unescape_string("a\\\"b"), Some("a\"b".to_string()));
    assert_eq!(unescape_string("a\\\\b"), Some("a\\b".to_string()));
    assert_eq!(
        unescape_string("\\b\\t\\n\\f\\r"),
        Some("\u{8}\t\n\u{c}\r".to_string())
    );
    assert_eq!(unescape_string("\\u0000"), Some("\u{0}".to_string()));
    assert_eq!(unescape_string("\\u001f"), Some("\u{1f}".to_string()));
}
