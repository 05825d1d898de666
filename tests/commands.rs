use gmat_zalo_bot::catalog::QuestionType;
use gmat_zalo_bot::command::{match_keyword, parse_command, Command};
use gmat_zalo_bot::text::{
    canonical_digits, contains_str, decimal_string, eq_ignore_ascii_case, trim_whitespace,
};

#[test]
fn abbreviations_ignore_case_and_padding() {
    let expected = Command::RequestByCategory(QuestionType::PS);
    assert_eq!(parse_command("PS"), expected);
    assert_eq!(parse_command("ps"), expected);
    assert_eq!(parse_command(" Ps "), expected);
    assert_eq!(parse_command("\tpS\n"), expected);
    assert_eq!(parse_command("ds"), Command::RequestByCategory(QuestionType::DS));
    assert_eq!(parse_command("RC"), Command::RequestByCategory(QuestionType::RC));
}

#[test]
fn numeric_text_requests_by_id() {
    assert_eq!(parse_command("42"), Command::RequestById("42".to_string()));
    assert_eq!(parse_command("  7 "), Command::RequestById("7".to_string()));
    assert_eq!(parse_command("007"), Command::RequestById("7".to_string()));
    assert_eq!(parse_command("+12"), Command::RequestById("12".to_string()));
    assert_eq!(parse_command("0"), Command::RequestById("0".to_string()));
    assert_eq!(parse_command("4294967295"), Command::RequestById("4294967295".to_string()));
    assert_eq!(parse_command("4294967296"), Command::RequestById("4294967296".to_string()));
    assert_eq!(
        parse_command("000123456789012345678901234567890"),
        Command::RequestById("123456789012345678901234567890".to_string())
    );
    assert_eq!(parse_command("000"), Command::RequestById("0".to_string()));
}

#[test]
fn unmatched_text_shows_help() {
    assert_eq!(parse_command(""), Command::ShowHelp);
    assert_eq!(parse_command("   "), Command::ShowHelp);
    assert_eq!(parse_command("xyz"), Command::ShowHelp);
    assert_eq!(parse_command("-1"), Command::ShowHelp);
    assert_eq!(parse_command("1.5"), Command::ShowHelp);
    assert_eq!(parse_command("+"), Command::ShowHelp);
    assert_eq!(parse_command("p s"), Command::ShowHelp);
    assert_eq!(parse_command("problem solving"), Command::ShowHelp);
}

#[test]
fn keyword_table() {
    assert_eq!(match_keyword("Sc"), Some(QuestionType::SC));
    assert_eq!(match_keyword("cR"), Some(QuestionType::CR));
    assert_eq!(match_keyword("psx"), None);
}

#[test]
fn trimming_removes_unicode_white_space() {
    assert_eq!(trim_whitespace("  a b \n"), "a b");
    assert_eq!(trim_whitespace("\u{3000}x\u{a0}"), "x");
    assert_eq!(trim_whitespace(" \t "), "");
    assert_eq!(trim_whitespace("abc"), "abc");
}

#[test]
fn numerals() {
    assert_eq!(canonical_digits("123"), Some("123".to_string()));
    assert_eq!(canonical_digits("+05"), Some("5".to_string()));
    assert_eq!(canonical_digits("12a"), None);
    assert_eq!(canonical_digits(""), None);
    assert_eq!(canonical_digits("+"), None);
    assert_eq!(canonical_digits("99999999999"), Some("99999999999".to_string()));
    assert_eq!(decimal_string(0), "0");
    assert_eq!(decimal_string(1234567890), "1234567890");
    assert_eq!(decimal_string(u64::MAX), u64::MAX.to_string());
}

#[test]
fn case_folding_and_search() {
    assert!(eq_ignore_ascii_case("AbC", "aBc"));
    assert!(!eq_ignore_ascii_case("abc", "abd"));
    assert!(!eq_ignore_ascii_case("ab", "abc"));
    assert!(contains_str("operation timeout reached", "timeout"));
    assert!(!contains_str("time out", "timeout"));
    assert!(contains_str("x", ""));
}
