use nerd::text::{trim, white_space};

#[test]
fn white_space_agrees_with_std_on_every_char() {
    let mut code: u32 = 0;
    while code <= 0x10FFFF {
        if let Some(c) = char::from_u32(code) {
            assert_eq!(white_space(c), c.is_whitespace(), "U+{:04X}", code);
        }
        code += 1;
    }
}

#[test]
fn trim_removes_outer_white_space_only() {
    assert_eq!(trim("  a b  "), "a b");
    assert_eq!(trim("\n\tCMake Error: x\n  at line 3\r\n"), "CMake Error: x\n  at line 3");
    assert_eq!(trim("x"), "x");
    assert_eq!(trim(" x"), "x");
    assert_eq!(trim("x "), "x");
}

#[test]
fn trim_of_nothing_but_white_space_is_empty() {
    assert_eq!(trim(""), "");
    assert_eq!(trim(" "), "");
    assert_eq!(trim(" \t\r\n\u{3000}\u{85}"), "");
}

#[test]
fn trim_knows_unicode_white_space() {
    assert_eq!(trim("\u{2003}\u{a0}é\u{1680}ß\u{2028}\u{205f}"), "é\u{1680}ß");
    assert_eq!(trim("\u{200b}x\u{200b}"), "\u{200b}x\u{200b}");
}

#[test]
fn trim_agrees_with_std() {
    let samples = [
        "",
        " ",
        "a",
        " a",
        "a ",
        "  a  b  ",
        "\n\n",
        "\u{feff}a\u{feff}",
        "\u{180e}a",
        "\u{b}\u{c}a\u{1c}\u{1d}",
        "日本語 \u{3000}",
        "\u{2000}\u{2001}\u{2002}\u{2004}\u{2005}\u{2006}\u{2007}\u{2008}\u{2009}\u{200a}z\u{202f}\u{2029}",
    ];
    for s in samples {
        assert_eq!(trim(s), s.trim(), "{:?}", s);
    }
}
