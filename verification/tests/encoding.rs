use cli_bridge::json::{encode_json_string, escape_json};

#[test]
fn escapes_quotes_and_backslashes() {
    assert_eq!(encode_json_string("a\"b\\c"), "\"a\\\"b\\\\c\"");
}

#[test]
fn escapes_named_control_characters() {
    assert_eq!(escape_json("\u{8}\t\n\u{c}\r"), "\\b\\t\\n\\f\\r");
}

#[test]
fn escapes_other_control_characters_as_hex() {
    assert_eq!(escape_json("\u{0}\u{1}\u{b}\u{1f}"), "\\u0000\\u0001\\u000b\\u001f");
}

#[test]
fn passes_other_characters_through() {
    assert_eq!(escape_json("h\u{e9}llo \u{2713} ~"), "h\u{e9}llo \u{2713} ~");
}

#[test]
fn encodes_the_empty_string() {
    assert_eq!(encode_json_string(""), "\"\"");
}

#[test]
fn agrees_with_serde_json_on_strings() {
    let samples = [
        "",
        "plain",
        "a\"b\\c",
        "line\nbreak\tand\rmore",
        "\u{0}\u{1}\u{8}\u{b}\u{c}\u{1f}\u{20}\u{7f}",
        "caf\u{e9} \u{2713} \u{1f600}",
        "window.__CLI_ARGS__ = {};",
    ];
    for s in samples {
        assert_eq!(encode_json_string(s), serde_json::to_string(s).unwrap());
    }
}
