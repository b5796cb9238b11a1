use bottle_installer::patcher::lines_to_append;
use bottle_installer::patcher::patch_text;

fn required() -> Vec<String> {
    vec![
        "\"MVK_ALLOW_METAL_FENCES\" = \"1\"".to_string(),
        "\"WINEESYNC\" = \"1\"".to_string(),
    ]
}

fn count_occurrences(text: &str, needle: &str) -> usize {
    text.matches(needle).count()
}

#[test]
fn appends_absent_lines_with_newlines() {
    let text = "\"Version\" = \"2\"\n";
    let out = patch_text(text, &required());
    assert_eq!(
        out,
        "\"Version\" = \"2\"\n\"MVK_ALLOW_METAL_FENCES\" = \"1\"\n\"WINEESYNC\" = \"1\"\n"
    );
}

#[test]
fn skips_lines_already_present() {
    let text = "a\n\"WINEESYNC\" = \"1\"\nb\n";
    let out = patch_text(text, &required());
    assert_eq!(out, "a\n\"WINEESYNC\" = \"1\"\nb\n\"MVK_ALLOW_METAL_FENCES\" = \"1\"\n");
    let missing = lines_to_append(text, &required());
    assert_eq!(missing, vec!["\"MVK_ALLOW_METAL_FENCES\" = \"1\"".to_string()]);
}

#[test]
fn patching_twice_adds_nothing_more() {
    let text = "[EnvironmentVariables]\n";
    let once = patch_text(text, &required());
    let twice = patch_text(&once, &required());
    assert_eq!(once, twice);
    for line in required() {
        assert_eq!(count_occurrences(&twice, &line), 1);
    }
    assert!(lines_to_append(&once, &required()).is_empty());
}

#[test]
fn patches_empty_text() {
    let out = patch_text("", &required());
    assert_eq!(out, "\"MVK_ALLOW_METAL_FENCES\" = \"1\"\n\"WINEESYNC\" = \"1\"\n");
}

#[test]
fn presence_is_a_substring_test() {
    // The check is containment in the text as read, exactly as the
    // patcher's contract states: a line inside another line counts.
    let text = "x \"WINEESYNC\" = \"1\" y\n";
    let missing = lines_to_append(text, &vec!["\"WINEESYNC\" = \"1\"".to_string()]);
    assert!(missing.is_empty());
}
