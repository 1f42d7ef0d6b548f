use hyprwhisper::text::{char_is_white_space, join, trim};

#[test]
fn white_space_is_the_unicode_property() {
    for code in 0..=0x11_0000u32 {
        if let Some(c) = char::from_u32(code) {
            assert_eq!(char_is_white_space(c), c.is_whitespace(), "U+{:04X}", code);
        }
    }
}

#[test]
fn trim_removes_white_space_at_both_ends() {
    assert_eq!(trim("  hello world \n"), "hello world");
    assert_eq!(trim("hello"), "hello");
    assert_eq!(trim("\t\r\n x"), "x");
    assert_eq!(trim("x \u{3000}\u{A0}"), "x");
    assert_eq!(trim(" a  b "), "a  b");
}

#[test]
fn trim_of_white_space_only_is_empty() {
    assert_eq!(trim(""), "");
    assert_eq!(trim(" "), "");
    assert_eq!(trim(" \t\n\u{2028}\u{85} "), "");
}

#[test]
fn trim_counts_characters_not_bytes() {
    assert_eq!(trim(" \u{e9}t\u{e9} "), "\u{e9}t\u{e9}");
    assert_eq!(trim("\u{2003}\u{65e5}\u{672c}\u{8a9e}\u{2003}"), "\u{65e5}\u{672c}\u{8a9e}");
    assert_eq!(trim("\u{1F600} "), "\u{1F600}");
}

#[test]
fn trim_agrees_with_the_standard_library() {
    let samples = [
        "",
        " ",
        "a",
        " a",
        "a ",
        "  a b  ",
        "\u{feff} a",
        "\u{200b} zero width ",
        "\n\n line \r\n",
        "\u{1680}ogham\u{1680}",
        "\u{180e}mongolian",
        "\u{205f}\u{202f}narrow\u{2009}",
    ];
    for s in samples {
        assert_eq!(trim(s), s.trim(), "{:?}", s);
    }
}

#[test]
fn trimming_twice_changes_nothing() {
    let once = trim(" \t spoken text\u{a0}\n");
    assert_eq!(trim(&once), once);
}

#[test]
fn join_puts_nothing_between_the_pieces() {
    assert_eq!(join(&vec![]), "");
    assert_eq!(join(&vec!["one".to_string()]), "one");
    assert_eq!(
        join(&vec![" Hello".to_string(), " world.".to_string(), "".to_string(), " Bye".to_string()]),
        " Hello world. Bye"
    );
}
