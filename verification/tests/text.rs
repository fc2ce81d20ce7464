use translation_backend::languages::{is_supported, language_at, LANGUAGE_COUNT};
use translation_backend::text::{blank, decode, same_text, trimmed, whitespace};

#[test]
fn whitespace_is_the_unicode_property() {
    let mut count = 0;
    for code in 0..=0x10ffffu32 {
        if let Some(c) = char::from_u32(code) {
            assert_eq!(whitespace(c), c.is_whitespace(), "U+{:04X}", code);
            if whitespace(c) {
                count += 1;
            }
        }
    }
    assert_eq!(count, 25);
}

#[test]
fn whitespace_knows_the_common_characters() {
    for c in [' ', '\t', '\n', '\r', '\u{b}', '\u{c}', '\u{85}', '\u{a0}', '\u{2028}', '\u{3000}'] {
        assert!(whitespace(c));
    }
    for c in ['a', '0', '_', '\u{0}', '\u{8}', '\u{e}', '\u{180e}', '\u{200b}', '\u{feff}', 'é'] {
        assert!(!whitespace(c));
    }
}

#[test]
fn blank_means_nothing_but_whitespace() {
    assert!(blank(""));
    assert!(blank(" "));
    assert!(blank(" \t\r\n\u{a0}"));
    assert!(!blank("a"));
    assert!(!blank("  a  "));
    assert!(!blank("\u{200b}"));
}

#[test]
fn trimmed_removes_both_ends_and_keeps_the_middle() {
    assert_eq!(trimmed(""), "");
    assert_eq!(trimmed("   "), "");
    assert_eq!(trimmed("a"), "a");
    assert_eq!(trimmed(" a"), "a");
    assert_eq!(trimmed("a "), "a");
    assert_eq!(trimmed("  a b  c \n"), "a b  c");
    assert_eq!(trimmed("\u{3000}日本 語\u{a0}\t"), "日本 語");
    assert_eq!(trimmed("\u{200b} x"), "\u{200b} x");
}

#[test]
fn trimmed_agrees_with_the_standard_library() {
    let samples = [
        "",
        " ",
        "\n",
        "x",
        " x",
        "x ",
        " x ",
        "\t\tHola, mundo\r\n",
        "  multiple   inner   spaces  ",
        "\u{2003}em\u{2003}space\u{2003}",
        "\u{85}next line\u{85}",
        "ünïcödé ",
        " \u{1680}ogham\u{1680} ",
        "🙂 \n",
    ];
    for sample in samples {
        assert_eq!(trimmed(sample), sample.trim());
        assert_eq!(blank(sample), sample.trim().is_empty());
    }
}

#[test]
fn same_text_compares_characters() {
    assert!(same_text("", ""));
    assert!(same_text("en", "en"));
    assert!(same_text("日本", "日本"));
    assert!(!same_text("en", "es"));
    assert!(!same_text("en", "en "));
    assert!(!same_text("en", "EN"));
    assert!(!same_text("e", "é"));
}

#[test]
fn table_lookup_finds_exactly_the_listed_codes() {
    assert_eq!(LANGUAGE_COUNT, 15);
    for i in 0..LANGUAGE_COUNT {
        let (code, name) = language_at(i);
        assert!(is_supported(code));
        assert!(!is_supported(name));
        assert_eq!(code.chars().count(), 2);
    }
    assert_eq!(language_at(0), ("en", "English"));
    assert_eq!(language_at(7), ("ja", "Japanese"));
    assert_eq!(language_at(14), ("tr", "Turkish"));
    for code in ["", "xx", "EN", "en-US", "sv", "english"] {
        assert!(!is_supported(code));
    }
}

#[test]
fn table_codes_are_distinct() {
    for i in 0..LANGUAGE_COUNT {
        for j in (i + 1)..LANGUAGE_COUNT {
            assert_ne!(language_at(i).0, language_at(j).0);
        }
    }
}

#[test]
fn decode_reads_valid_bytes_as_their_text() {
    assert_eq!(decode(b""), "");
    assert_eq!(decode(b"Hola"), "Hola");
    assert_eq!(decode("¿Qué tal? 你好".as_bytes()), "¿Qué tal? 你好");
    assert_eq!(decode(&[0xf0, 0x9f, 0x99, 0x82]), "🙂");
}

#[test]
fn decode_replaces_what_is_not_valid() {
    assert_eq!(decode(&[0xff]), "\u{fffd}");
    assert_eq!(decode(&[b'a', 0xc0, 0x80, b'b']), "a\u{fffd}\u{fffd}b");
    assert_eq!(decode(&[0xed, 0xa0, 0x80]), "\u{fffd}\u{fffd}\u{fffd}");
    assert_eq!(decode(&[b'x', 0xe2, 0x82]), "x\u{fffd}");
}
