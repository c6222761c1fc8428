use open_pr::text::{chars_of, contains, matches_at, trim_trailing};

#[test]
fn substring_is_found_anywhere() {
    assert!(contains("https://github.com/x", "github.com"));
    assert!(contains("github.com", "github.com"));
    assert!(contains("xgithub.com", "github.com"));
    assert!(contains("abc", ""));
    assert!(contains("", ""));
    assert!(contains("aab", "ab"));
}

#[test]
fn absent_substring_is_not_found() {
    assert!(!contains("https://github.co/x", "github.com"));
    assert!(!contains("", "a"));
    assert!(!contains("ab", "abc"));
    assert!(!contains("GitHub.com", "github.com"));
}

#[test]
fn substring_search_counts_characters_not_bytes() {
    assert!(contains("日本語.git", ".git"));
    assert!(contains("日本語", "本"));
    assert!(!contains("日本語", "本日"));
}

#[test]
fn trailing_suffix_is_removed_repeatedly() {
    assert_eq!(trim_trailing("widget.git", ".git"), "widget");
    assert_eq!(trim_trailing("widget.git.git", ".git"), "widget");
    assert_eq!(trim_trailing("widget", ".git"), "widget");
    assert_eq!(trim_trailing(".git", ".git"), "");
    assert_eq!(trim_trailing("", ".git"), "");
    assert_eq!(trim_trailing("a.gitb", ".git"), "a.gitb");
    assert_eq!(trim_trailing("git", ".git"), "git");
    assert_eq!(trim_trailing("widget", ""), "widget");
    assert_eq!(trim_trailing("日本.git", ".git"), "日本");
}

#[test]
fn trimming_agrees_with_std() {
    for s in ["widget.git", "a.git.git.git", ".git.gi", "x", "", ".git"] {
        assert_eq!(trim_trailing(s, ".git"), s.trim_end_matches(".git"));
    }
}

#[test]
fn characters_and_positions() {
    assert_eq!(chars_of("aé日"), vec!['a', 'é', '日']);
    let hay = chars_of("abcabc");
    let needle = chars_of("bc");
    assert!(matches_at(&hay, &needle, 1));
    assert!(matches_at(&hay, &needle, 4));
    assert!(!matches_at(&hay, &needle, 0));
    assert!(!matches_at(&hay, &needle, 5));
    assert!(!matches_at(&hay, &needle, usize::MAX));
    assert!(matches_at(&hay, &chars_of(""), 6));
    assert!(!matches_at(&hay, &chars_of(""), 7));
}

#[test]
fn substring_search_agrees_with_std() {
    let hays = ["", "a", "abcabd", "https://github.com/x/y.git", "ababab", "日本語.git"];
    let needles = ["", "a", "ab", "abd", "github.com", ".git", "bab", "語"];
    for hay in hays {
        for needle in needles {
            assert_eq!(contains(hay, needle), hay.contains(needle));
        }
    }
}
