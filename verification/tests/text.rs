use validate_dotfiles::text::{chars_of, contains, decimal, ends_with, join, join_path, lines};

#[test]
fn chars_of_gives_the_characters_in_order() {
    assert_eq!(chars_of("a✓b"), vec!['a', '✓', 'b']);
    assert_eq!(chars_of(""), Vec::<char>::new());
}

#[test]
fn ends_with_tells_suffixes() {
    assert!(ends_with("config/app.toml", ".toml"));
    assert!(!ends_with("config/app.toml", ".json"));
    assert!(!ends_with("settings.jsonc", ".json"));
    assert!(ends_with("settings.jsonc", ".jsonc"));
    assert!(!ends_with("ml", ".toml"));
    assert!(ends_with("anything", ""));
    assert!(ends_with("", ""));
}

#[test]
fn contains_finds_a_pattern_anywhere() {
    assert!(contains("home/.config/zed/settings.json", "/.config/zed/"));
    assert!(!contains(".config/zed/settings.json", "/.config/zed/"));
    assert!(contains("Run: git add a.txt", "git add"));
    assert!(contains("abc", "abc"));
    assert!(contains("abc", "c"));
    assert!(contains("abc", ""));
    assert!(!contains("ab", "abc"));
    assert!(!contains("aab", "abb"));
}

#[test]
fn decimal_writes_numbers_in_base_ten() {
    assert_eq!(decimal(0), "0");
    assert_eq!(decimal(7), "7");
    assert_eq!(decimal(10), "10");
    assert_eq!(decimal(109), "109");
    assert_eq!(decimal(12345), "12345");
    assert_eq!(decimal(usize::MAX), format!("{}", usize::MAX));
}

#[test]
fn join_path_places_a_path_under_a_root() {
    assert_eq!(join_path("/home/me/dotfiles", ".dotter/global.toml"), "/home/me/dotfiles/.dotter/global.toml");
    assert_eq!(join_path("/home/me/dotfiles/", ".dotter/global.toml"), "/home/me/dotfiles/.dotter/global.toml");
    assert_eq!(join_path("", ".dotter/global.toml"), ".dotter/global.toml");
    assert_eq!(join_path(".", "a"), "./a");
    assert_eq!(join_path("/", "a"), "/a");
}

#[test]
fn join_puts_the_separator_between_neighbours() {
    assert_eq!(join(&vec![], " "), "");
    assert_eq!(join(&vec!["a".to_string()], " "), "a");
    assert_eq!(join(&vec!["a".to_string(), "b".to_string(), "c".to_string()], " "), "a b c");
    assert_eq!(join(&vec!["a".to_string(), "".to_string()], ", "), "a, ");
}

#[test]
fn lines_cuts_as_std_does() {
    let samples = vec![
        "", "a", "a\n", "a\nb", "a\r\nb\r\n", "a\n\nb", "\n", "\n\n", "a\r", "a\r\n", "\r\n", "a\rb\n",
        "one\ntwo\nthree", "\r", "x\n\r",
    ];
    for sample in samples {
        let expected: Vec<String> = sample.lines().map(String::from).collect();
        assert_eq!(lines(sample), expected, "sample {:?}", sample);
    }
}

#[test]
fn lines_keeps_a_carriage_return_that_ends_the_text() {
    assert_eq!(lines("a\r"), vec!["a\r".to_string()]);
    assert_eq!(lines("a\r\n"), vec!["a".to_string()]);
    assert_eq!(lines("a\n\nb"), vec!["a".to_string(), "".to_string(), "b".to_string()]);
    assert_eq!(lines(""), Vec::<String>::new());
}
