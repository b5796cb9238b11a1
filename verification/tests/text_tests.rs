use bottle_installer::text::contains_str;
use bottle_installer::text::find_space;
use bottle_installer::text::starts_with_str;
use bottle_installer::text::strip_backslashes;
use bottle_installer::text::trim_str;

#[test]
fn trim_removes_surrounding_whitespace() {
    assert_eq!(trim_str("  hello \n"), "hello");
    assert_eq!(trim_str("\t a b \r\n"), "a b");
    assert_eq!(trim_str("nothing"), "nothing");
}

#[test]
fn trim_of_all_whitespace_is_empty() {
    assert_eq!(trim_str("   \t\r\n"), "");
    assert_eq!(trim_str(""), "");
}

#[test]
fn strip_backslashes_removes_every_backslash() {
    assert_eq!(strip_backslashes("C:\\some\\path"), "C:somepath");
    assert_eq!(strip_backslashes("no slashes"), "no slashes");
    assert_eq!(strip_backslashes("\\\\"), "");
    assert_eq!(strip_backslashes(""), "");
}

#[test]
fn starts_with_finds_prefixes() {
    assert!(starts_with_str("--path /x", "--path"));
    assert!(starts_with_str("abc", ""));
    assert!(!starts_with_str("-path /x", "--path"));
    assert!(!starts_with_str("--", "--path"));
}

#[test]
fn find_space_returns_first_space() {
    assert_eq!(find_space("--path  /x"), Some(6));
    assert_eq!(find_space(" lead"), Some(0));
    assert_eq!(find_space("none"), None);
    assert_eq!(find_space(""), None);
}

#[test]
fn contains_finds_substrings() {
    assert!(contains_str("\"WINEESYNC\" = \"1\"\n", "\"WINEESYNC\" = \"1\""));
    assert!(contains_str("abc", ""));
    assert!(contains_str("abc", "abc"));
    assert!(contains_str("xabcy", "abc"));
    assert!(!contains_str("ab", "abc"));
    assert!(!contains_str("abdc", "abc"));
}
