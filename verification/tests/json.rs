use weather_gateway::json::to_json_string;

#[test]
fn plain_text_is_only_quoted() {
    assert_eq!(to_json_string("hello"), "\"hello\"");
    assert_eq!(to_json_string("Paris, 21 degrees"), "\"Paris, 21 degrees\"");
}

#[test]
fn empty_text_is_two_quotes() {
    assert_eq!(to_json_string(""), "\"\"");
}

#[test]
fn quote_and_backslash_get_a_backslash() {
    assert_eq!(to_json_string("a\"b"), "\"a\\\"b\"");
    assert_eq!(to_json_string("a\\b"), "\"a\\\\b\"");
    assert_eq!(to_json_string("\\\""), "\"\\\\\\\"\"");
}

#[test]
fn named_control_characters_use_their_letter() {
    assert_eq!(to_json_string("\u{8}"), "\"\\b\"");
    assert_eq!(to_json_string("\u{c}"), "\"\\f\"");
    assert_eq!(to_json_string("\n"), "\"\\n\"");
    assert_eq!(to_json_string("\r"), "\"\\r\"");
    assert_eq!(to_json_string("\t"), "\"\\t\"");
    assert_eq!(to_json_string("line one\nline two\r\n"), "\"line one\\nline two\\r\\n\"");
}

#[test]
fn other_control_characters_use_their_number() {
    assert_eq!(to_json_string("\u{0}"), "\"\\u0000\"");
    assert_eq!(to_json_string("\u{1}"), "\"\\u0001\"");
    assert_eq!(to_json_string("\u{b}"), "\"\\u000b\"");
    assert_eq!(to_json_string("\u{1b}"), "\"\\u001b\"");
    assert_eq!(to_json_string("\u{1f}"), "\"\\u001f\"");
}

#[test]
fn everything_from_the_space_on_stands_for_itself() {
    assert_eq!(to_json_string(" "), "\" \"");
    assert_eq!(to_json_string("/"), "\"/\"");
    assert_eq!(to_json_string("\u{7f}"), "\"\u{7f}\"");
    assert_eq!(to_json_string("São Paulo"), "\"São Paulo\"");
    assert_eq!(to_json_string("東京 😀"), "\"東京 😀\"");
    assert_eq!(to_json_string("\u{2028}"), "\"\u{2028}\"");
}

#[test]
fn a_json_document_becomes_one_string() {
    let upstream = "{\"name\":\"London\",\"main\":{\"temp\":11.3}}";
    assert_eq!(
        to_json_string(upstream),
        "\"{\\\"name\\\":\\\"London\\\",\\\"main\\\":{\\\"temp\\\":11.3}}\""
    );
}

#[test]
fn wrapping_twice_is_not_wrapping_once() {
    let once = to_json_string("a\"b");
    let twice = to_json_string(&once);
    assert_eq!(once, "\"a\\\"b\"");
    assert_eq!(twice, "\"\\\"a\\\\\\\"b\\\"\"");
}

#[test]
fn every_character_is_written_as_serde_json_writes_it() {
    for code in 0..=0x10ffffu32 {
        if let Some(c) = char::from_u32(code) {
            let text = c.to_string();
            assert_eq!(to_json_string(&text), serde_json::to_string(&text).unwrap(), "U+{:04X}", code);
        }
    }
}

#[test]
fn mixed_text_is_written_as_serde_json_writes_it() {
    let samples = [
        "",
        "London",
        "{\"cod\":\"404\",\"message\":\"city not found\"}",
        "tab\there, quote\" there, slash\\ and / too",
        "\u{0}\u{1}\u{2}\u{1e}\u{1f} \u{7f}\u{80}\u{ff}",
        "multi\nline\r\nbody\n",
        "Zürich — 東京 — 😀",
    ];
    for text in samples {
        assert_eq!(to_json_string(text), serde_json::to_string(text).unwrap());
    }
}

#[test]
fn a_json_reader_gives_the_text_back() {
    let samples = [
        "",
        "plain",
        "{\"temp\": 3}",
        "\"\\\"\\",
        "\u{0}\u{8}\u{9}\u{a}\u{b}\u{c}\u{d}\u{1f}",
        "Zürich — 東京 — 😀",
    ];
    for text in samples {
        let read: String = serde_json::from_str(&to_json_string(text)).unwrap();
        assert_eq!(read, text);
    }
}
