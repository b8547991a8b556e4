use wingetui::winget::error::WingetError;
use wingetui::winget::validate::validate_package_input;

#[test]
fn empty_string_rejected() {
    assert!(matches!(
        validate_package_input(""),
        Err(WingetError::Validation(_))
    ));
}

#[test]
fn whitespace_only_rejected() {
    assert!(matches!(
        validate_package_input("   \t  "),
        Err(WingetError::Validation(_))
    ));
}

#[test]
fn control_char_rejected() {
    assert!(matches!(
        validate_package_input("Micro\nsoft"),
        Err(WingetError::Validation(_))
    ));
    assert!(matches!(
        validate_package_input("a\u{0000}b"),
        Err(WingetError::Validation(_))
    ));
}

#[test]
fn over_200_chars_rejected() {
    let long = "a".repeat(201);
    assert!(matches!(
        validate_package_input(&long),
        Err(WingetError::Validation(_))
    ));
}

#[test]
fn exactly_200_chars_accepted() {
    let s = "a".repeat(200);
    assert!(validate_package_input(&s).is_ok());
}

#[test]
fn normal_id_accepted() {
    assert!(validate_package_input("Microsoft.PowerShell").is_ok());
    assert!(validate_package_input("Git.Git").is_ok());
}

#[test]
fn surrounding_whitespace_stripped() {
    assert!(validate_package_input("  Microsoft.PowerShell  ").is_ok());
}

#[test]
fn validation_reasons_are_exact() {
    assert_eq!(
        validate_package_input(" \u{3000} "),
        Err(WingetError::Validation("输入为空".to_string()))
    );
    assert_eq!(
        validate_package_input(&"字".repeat(201)),
        Err(WingetError::Validation("输入超过 200 字符".to_string()))
    );
    assert_eq!(
        validate_package_input("a\u{7f}b"),
        Err(WingetError::Validation("输入包含控制字符".to_string()))
    );
}

#[test]
fn length_counts_characters_after_trimming() {
    let padded = format!("  {}  ", "字".repeat(200));
    assert!(validate_package_input(&padded).is_ok());
}

#[test]
fn padding_does_not_change_the_verdict() {
    for s in ["Git.Git", "", "a\u{1}b", "   x   "] {
        let padded = format!("\u{a0}\t{s}\u{2029} ");
        assert_eq!(
            validate_package_input(s).is_ok(),
            validate_package_input(&padded).is_ok()
        );
    }
}
