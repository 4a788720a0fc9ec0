use vnikey::prototype;
use vnikey::validation::is_valid_vietnamese_syllable;

fn check(s: &str) -> bool {
    let chars: Vec<char> = s.chars().collect();
    is_valid_vietnamese_syllable(&chars)
}

fn check_plain(s: &str) -> bool {
    let chars: Vec<char> = s.chars().collect();
    prototype::is_valid_vietnamese_syllable(&chars)
}

#[test]
fn validation_test_valid_vietnamese() {
    assert!(check("hoàng"));
    assert!(check("nghĩ"));
    assert!(check("việt"));
    assert!(check("nam"));
    assert!(check("giường"));
    assert!(check("chuyện"));
    assert!(check("quốc"));
}

#[test]
fn test_valid_vietnamese() {
    assert!(check_plain("hoàng"));
    assert!(check_plain("nghĩ"));
    assert!(check_plain("việt"));
    assert!(check_plain("nam"));
    assert!(check_plain("giường"));
    assert!(check_plain("chuyện"));
    assert!(check_plain("quốc"));
}

#[test]
fn validation_test_invalid_vietnamese() {
    assert!(!check("englí"));
    assert!(!check("linúx"));
    assert!(!check("str"));
}

#[test]
fn test_invalid_vietnamese() {
    assert!(!check_plain("englí"));
    assert!(!check_plain("linúx"));
    assert!(!check_plain("str"));
}

#[test]
fn test_long_syllable_rejection() {
    // The validation function truncates processing at 16 characters for performance
    // and to avoid panics. We test strings > 16 characters to ensure they are
    // safely processed and rejected (since max valid Vietnamese syllable is ~7-8 chars).
    assert!(!check(&"a".repeat(17)));
    assert!(!check(&"b".repeat(20)));
    assert!(!check("nghiengnghiengnghieng")); // 21 chars
}

#[test]
fn plain_syllable_is_case_sensitive() {
    assert!(check_plain(""));
    assert!(check_plain("a"));
    assert!(!check_plain("A"));
    assert!(check("A"));
    assert!(check_plain("ngh"));
    assert!(!check_plain("xyz"));
}

#[test]
fn syllable_check_ignores_case() {
    for word in ["HOÀNG", "Việt", "NGHIÊNG", "ĐƯỜNG", "GiƯờNg", "ENGLÍ", "Thưở"] {
        let chars: Vec<char> = word.chars().collect();
        let lowered: Vec<char> = chars.iter().map(|&c| vnikey::telex::fast_lower(c)).collect();
        assert_eq!(
            is_valid_vietnamese_syllable(&chars),
            is_valid_vietnamese_syllable(&lowered),
            "{}",
            word
        );
    }
}
