use orchestration::decimal::{decimal, signed_decimal};
use orchestration::text::{lowers_to, text_eq, text_less, trim, trim_back, trim_front, Strip};

#[test]
fn trimming_strips_white_space_or_one_character() {
    assert_eq!(trim("  a b \t\n", Strip::WhiteSpace), "a b");
    assert_eq!(trim("\u{3000}x\u{a0}", Strip::WhiteSpace), "x");
    assert_eq!(trim("//a/b//", Strip::Char('/')), "a/b");
    assert_eq!(trim_front("//a/", Strip::Char('/')), "a/");
    assert_eq!(trim_back("//a/", Strip::Char('/')), "//a");
    assert_eq!(trim("", Strip::WhiteSpace), "");
    assert_eq!(trim("   ", Strip::WhiteSpace), "");
}

#[test]
fn trimming_agrees_with_std() {
    for s in ["  x  ", "\u{2003}y\u{2029}", "z", " \u{85}", "a\u{200b}"] {
        assert_eq!(trim(s, Strip::WhiteSpace), s.trim());
    }
}

#[test]
fn text_comparisons() {
    assert!(text_eq("abc", "abc"));
    assert!(!text_eq("abc", "abd"));
    assert!(text_less("abc", "abd"));
    assert!(text_less("ab", "abc"));
    assert!(!text_less("abc", "abc"));
    assert!(lowers_to("INFO", "info"));
    assert!(lowers_to("Warn", "warn"));
    assert!(!lowers_to("Warning", "warn"));
}

#[test]
fn decimal_renderings_match_format() {
    assert_eq!(decimal(0), "0");
    assert_eq!(decimal(1234567890), "1234567890");
    assert_eq!(decimal(u64::MAX), u64::MAX.to_string());
    assert_eq!(signed_decimal(-42), "-42");
    assert_eq!(signed_decimal(i64::MIN), i64::MIN.to_string());
    assert_eq!(signed_decimal(7), "7");
}
