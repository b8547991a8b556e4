use wingetui::text::{decimal_text, is_control, is_whitespace, trim_text};

#[test]
fn whitespace_class_agrees_with_std() {
    for n in 0u32..=0x10ffff {
        if let Some(c) = char::from_u32(n) {
            assert_eq!(is_whitespace(c), c.is_whitespace(), "U+{n:04X}");
        }
    }
}

#[test]
fn control_class_agrees_with_std() {
    for n in 0u32..=0x10ffff {
        if let Some(c) = char::from_u32(n) {
            assert_eq!(is_control(c), c.is_control(), "U+{n:04X}");
        }
    }
}

#[test]
fn trim_agrees_with_std() {
    for s in [
        "",
        "   ",
        "  a  ",
        "\u{3000}全角\u{3000}",
        "a b",
        "\t\n x \r\n",
        "\u{85}\u{a0}y\u{2028}",
    ] {
        assert_eq!(trim_text(s), s.trim());
    }
}

#[test]
fn trim_twice_is_trim_once() {
    let s = " \t a b \u{2000}";
    assert_eq!(trim_text(trim_text(s)), trim_text(s));
}

#[test]
fn decimal_text_agrees_with_display() {
    for n in [0, 1, 9, 10, -1, -10, 42, 1234567, i32::MAX, i32::MIN] {
        assert_eq!(decimal_text(n), n.to_string());
    }
}
