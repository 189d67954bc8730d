use opener::text::{
    char_is_whitespace, chars_of, contains_ignore_ascii_case, ends_with, to_ascii_lowercase, trim,
};

#[test]
fn chars_in_order() {
    assert_eq!(chars_of("a\u{e9}\u{1F600}z"), vec!['a', '\u{e9}', '\u{1F600}', 'z']);
    assert_eq!(chars_of(""), Vec::<char>::new());
}

#[test]
fn lowercase_folds_ascii_letters_only() {
    assert_eq!(to_ascii_lowercase('A'), 'a');
    assert_eq!(to_ascii_lowercase('Z'), 'z');
    assert_eq!(to_ascii_lowercase('m'), 'm');
    assert_eq!(to_ascii_lowercase('@'), '@');
    assert_eq!(to_ascii_lowercase('['), '[');
    assert_eq!(to_ascii_lowercase('\u{c9}'), '\u{c9}');
    for c in ['A', 'q', '0', '\u{130}', '\u{212A}', ' '] {
        assert_eq!(to_ascii_lowercase(c), c.to_ascii_lowercase());
    }
}

#[test]
fn whitespace_is_the_unicode_property() {
    let mut v: u32 = 0;
    while v <= 0x3100 {
        if let Some(c) = char::from_u32(v) {
            assert_eq!(char_is_whitespace(c), c.is_whitespace(), "U+{:04X}", v);
        }
        v += 1;
    }
    assert!(!char_is_whitespace('\u{200B}'));
    assert!(!char_is_whitespace('\u{180E}'));
    assert!(!char_is_whitespace('\u{FEFF}'));
}

#[test]
fn contains_finds_a_run_in_any_case() {
    assert!(contains_ignore_ascii_case("12:pids:/Docker/abc", "docker"));
    assert!(contains_ignore_ascii_case("docker", "docker"));
    assert!(contains_ignore_ascii_case("xxDOCKER", "docker"));
    assert!(contains_ignore_ascii_case("anything", ""));
    assert!(contains_ignore_ascii_case("", ""));
}

#[test]
fn contains_misses_what_is_not_there() {
    assert!(!contains_ignore_ascii_case("", "docker"));
    assert!(!contains_ignore_ascii_case("docke", "docker"));
    assert!(!contains_ignore_ascii_case("dock er", "docker"));
    assert!(!contains_ignore_ascii_case("ddockedocke", "docker"));
    // Only the haystack is folded: the needle is taken as it is.
    assert!(!contains_ignore_ascii_case("docker", "Docker"));
    // Folding is ASCII only.
    assert!(!contains_ignore_ascii_case("\u{212A}elvin", "kelvin"));
}

#[test]
fn contains_agrees_with_the_standard_library() {
    let hays = ["", "a", "Microsoft", "xmicrosof", "4.4.0-19041-MICROSOFT", "micromicrosoft"];
    let needles = ["", "a", "microsoft", "soft", "t"];
    for hay in hays {
        for needle in needles {
            assert_eq!(
                contains_ignore_ascii_case(hay, needle),
                hay.to_ascii_lowercase().contains(needle),
                "{:?} in {:?}",
                needle,
                hay
            );
        }
    }
}

#[test]
fn ends_with_suffix() {
    assert!(ends_with("firefox.exe", ".exe"));
    assert!(ends_with(".exe", ".exe"));
    assert!(ends_with("abc", ""));
    assert!(!ends_with("exe", ".exe"));
    assert!(!ends_with("firefox.EXE", ".exe"));
    assert!(!ends_with("firefox.exe ", ".exe"));
    assert!(!ends_with("", ".exe"));
}

#[test]
fn trim_takes_whitespace_off_both_ends() {
    assert_eq!(trim("boom\n"), "boom");
    assert_eq!(trim("  \t boom  bang \r\n"), "boom  bang");
    assert_eq!(trim("\u{2003}x\u{3000}"), "x");
    assert_eq!(trim("x"), "x");
    assert_eq!(trim(""), "");
    assert_eq!(trim(" \n\t "), "");
    assert_eq!(trim("\u{200B}x"), "\u{200B}x");
}

#[test]
fn trim_agrees_with_the_standard_library() {
    let samples = [
        "",
        " ",
        "a",
        " a",
        "a ",
        " a b ",
        "\n\n\u{85}caf\u{e9}\u{a0}",
        "\u{1680}\u{2000}\u{200A}\u{2028}\u{2029}\u{202F}\u{205F}x\u{b}\u{c}",
        "\u{1F600} ",
    ];
    for sample in samples {
        assert_eq!(trim(sample), sample.trim(), "{:?}", sample);
    }
}
