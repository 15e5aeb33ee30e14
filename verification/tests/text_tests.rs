use schnauzer_ui::effects::RunError;
use schnauzer_ui::text::{parse_seconds, str_eq};
use schnauzer_ui::{SupportedBrowser, WebDriverConfig};

#[test]
fn parse_seconds_accepts_plain_digits() {
    assert_eq!(parse_seconds("0"), Some(0));
    assert_eq!(parse_seconds("2"), Some(2));
    assert_eq!(parse_seconds("007"), Some(7));
    assert_eq!(parse_seconds("1234567890"), Some(1234567890));
}

#[test]
fn parse_seconds_accepts_one_leading_plus() {
    assert_eq!(parse_seconds("+5"), Some(5));
    assert_eq!(parse_seconds("+"), None);
    assert_eq!(parse_seconds("++5"), None);
}

#[test]
fn parse_seconds_rejects_non_digits() {
    assert_eq!(parse_seconds(""), None);
    assert_eq!(parse_seconds("abc"), None);
    assert_eq!(parse_seconds("1e3"), None);
    assert_eq!(parse_seconds("-1"), None);
    assert_eq!(parse_seconds("2 "), None);
    assert_eq!(parse_seconds("1.5"), None);
}

#[test]
fn parse_seconds_handles_the_sixty_four_bit_bound() {
    assert_eq!(parse_seconds("18446744073709551615"), Some(u64::MAX));
    assert_eq!(parse_seconds("18446744073709551616"), None);
    assert_eq!(parse_seconds("99999999999999999999999"), None);
}

#[test]
fn str_eq_compares_contents() {
    assert!(str_eq("Enter", "Enter"));
    assert!(!str_eq("Enter", "enter"));
    assert!(!str_eq("", "a"));
    assert!(str_eq("", ""));
}

#[test]
fn run_error_messages_name_the_failure() {
    assert_eq!(RunError::UndefinedVariable.message(), "Variable is not yet defined");
    assert_eq!(RunError::CouldNotLocate.message(), "Could not locate the element");
    assert_eq!(RunError::UnsupportedKey.message(), "Unsupported Key");
}

#[test]
fn web_driver_config_defaults() {
    let cfg = WebDriverConfig::default();
    assert_eq!(cfg.port, 4444);
    assert!(!cfg.headless);
    assert_eq!(cfg.browser, SupportedBrowser::Chrome);
}
