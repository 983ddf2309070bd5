use gemuki::text::filter_by_prefix;
use gemuki::text::i64_to_dec;
use gemuki::text::starts_with_str;
use gemuki::text::str_eq;
use gemuki::text::u64_to_dec;

#[test]
fn unsigned_decimal_rendering() {
    assert_eq!(u64_to_dec(0), "0");
    assert_eq!(u64_to_dec(7), "7");
    assert_eq!(u64_to_dec(10), "10");
    assert_eq!(u64_to_dec(90210), "90210");
    assert_eq!(u64_to_dec(u64::MAX), "18446744073709551615");
}

#[test]
fn signed_decimal_rendering() {
    assert_eq!(i64_to_dec(0), "0");
    assert_eq!(i64_to_dec(42), "42");
    assert_eq!(i64_to_dec(-1), "-1");
    assert_eq!(i64_to_dec(-90210), "-90210");
    assert_eq!(i64_to_dec(i64::MIN), "-9223372036854775808");
    assert_eq!(i64_to_dec(i64::MAX), "9223372036854775807");
}

#[test]
fn prefix_test_by_characters() {
    assert!(starts_with_str("chess", "ch"));
    assert!(starts_with_str("chess", ""));
    assert!(starts_with_str("chess", "chess"));
    assert!(!starts_with_str("chess", "chess club"));
    assert!(!starts_with_str("chess", "go"));
    assert!(starts_with_str("日本語テキスト", "日本語"));
}

#[test]
fn string_equality_by_characters() {
    assert!(str_eq("Chess", "Chess"));
    assert!(!str_eq("Chess", "chess"));
    assert!(!str_eq("Chess", "Chess "));
    assert!(str_eq("", ""));
}

#[test]
fn autocomplete_folds_case_on_both_sides() {
    let names = vec![
        "Chess".to_string(),
        "Chrono Trigger".to_string(),
        "Go".to_string(),
        "checkers".to_string(),
    ];
    // If folding handed its input back unchanged, "CH" would match nothing.
    let hits = filter_by_prefix(&names, "CH");
    assert_eq!(hits, vec!["Chess".to_string(), "Chrono Trigger".to_string(), "checkers".to_string()]);
}

#[test]
fn autocomplete_with_empty_prefix_offers_everything() {
    let names = vec!["Chess".to_string(), "Go".to_string()];
    assert_eq!(filter_by_prefix(&names, ""), names);
}

#[test]
fn autocomplete_without_hits_is_empty() {
    let names = vec!["Chess".to_string(), "Go".to_string()];
    assert!(filter_by_prefix(&names, "xyz").is_empty());
}
