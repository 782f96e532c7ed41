use validate_dotfiles::document::{
    append_all, holds, parse_document, sources_of_document, sources_of_group, unique, ConfigValue,
};

fn table_of(entries: Vec<(&str, ConfigValue)>) -> ConfigValue {
    ConfigValue::Table(entries.into_iter().map(|(name, value)| (name.to_string(), value)).collect())
}

fn texts(items: &[&str]) -> Vec<String> {
    items.iter().map(|item| item.to_string()).collect()
}

#[test]
fn member_finds_a_member_by_name() {
    let table = table_of(vec![("a", ConfigValue::Other), ("files", table_of(vec![("x", ConfigValue::Other)]))]);
    assert!(matches!(table.member("a"), Some(ConfigValue::Other)));
    assert!(matches!(table.member("files"), Some(ConfigValue::Table(_))));
    assert!(table.member("b").is_none());
    assert!(ConfigValue::Other.member("a").is_none());
}

#[test]
fn member_names_lists_the_names_in_order() {
    let table = table_of(vec![("b", ConfigValue::Other), ("a", ConfigValue::Other)]);
    assert_eq!(table.member_names(), texts(&["b", "a"]));
    assert_eq!(ConfigValue::Other.member_names(), Vec::<String>::new());
}

#[test]
fn a_group_names_the_keys_of_its_files_table() {
    let group = table_of(vec![
        ("depends", ConfigValue::Other),
        ("files", table_of(vec![("zshrc", ConfigValue::Other), ("vimrc", table_of(vec![]))])),
    ]);
    assert_eq!(sources_of_group(&group), texts(&["zshrc", "vimrc"]));
}

#[test]
fn a_group_without_a_files_table_names_nothing() {
    assert_eq!(sources_of_group(&ConfigValue::Other), Vec::<String>::new());
    assert_eq!(sources_of_group(&table_of(vec![("depends", ConfigValue::Other)])), Vec::<String>::new());
    assert_eq!(sources_of_group(&table_of(vec![("files", ConfigValue::Other)])), Vec::<String>::new());
}

#[test]
fn a_document_names_the_sources_of_all_its_groups() {
    let document = table_of(vec![
        ("shell", table_of(vec![("files", table_of(vec![("zshrc", ConfigValue::Other)]))])),
        ("title", ConfigValue::Other),
        ("editor", table_of(vec![("files", table_of(vec![("vimrc", ConfigValue::Other), ("zshrc", ConfigValue::Other)]))])),
    ]);
    assert_eq!(sources_of_document(&document), texts(&["zshrc", "vimrc", "zshrc"]));
    assert_eq!(sources_of_document(&ConfigValue::Other), Vec::<String>::new());
}

#[test]
fn unique_keeps_the_first_of_equal_items() {
    assert_eq!(unique(&texts(&["b", "a", "b", "c", "a"])), texts(&["b", "a", "c"]));
    assert_eq!(unique(&texts(&[])), Vec::<String>::new());
    assert_eq!(unique(&texts(&["x", "x", "x"])), texts(&["x"]));
}

#[test]
fn holds_tells_membership() {
    assert!(holds(&texts(&["a", "b"]), &"b".to_string()));
    assert!(!holds(&texts(&["a", "b"]), &"c".to_string()));
    assert!(!holds(&texts(&[]), &"a".to_string()));
}

#[test]
fn append_all_adds_at_the_end() {
    let mut all = texts(&["a"]);
    append_all(&mut all, texts(&["b", "c"]));
    assert_eq!(all, texts(&["a", "b", "c"]));
    append_all(&mut all, texts(&[]));
    assert_eq!(all, texts(&["a", "b", "c"]));
}

#[test]
fn parse_document_reads_tables_and_their_members() {
    let text = "[shell.files]\nzshrc = \"~/.zshrc\"\n\"config/nvim\" = { target = \"~/.config/nvim\", type = \"symbolic\" }\n\n[shell]\ndepends = [\"base\"]\n\n[base.files]\ngitconfig = \"~/.gitconfig\"\n";
    let document = parse_document(text).expect("the text is well-formed");
    assert_eq!(document.member_names(), texts(&["base", "shell"]));
    assert_eq!(sources_of_document(&document), texts(&["gitconfig", "config/nvim", "zshrc"]));
    let shell = document.member("shell").expect("shell is a member");
    assert_eq!(shell.member_names(), texts(&["depends", "files"]));
    assert!(matches!(shell.member("depends"), Some(ConfigValue::Other)));
    let nvim = shell.member("files").and_then(|files| files.member("config/nvim")).expect("nested");
    assert_eq!(nvim.member_names(), texts(&["target", "type"]));
}

#[test]
fn parse_document_reads_the_empty_text_as_an_empty_table() {
    let document = parse_document("").expect("the empty text is a document");
    assert!(matches!(&document, ConfigValue::Table(members) if members.is_empty()));
}

#[test]
fn parse_document_rejects_malformed_text() {
    assert!(parse_document("[shell\nfiles = ").is_none());
    assert!(parse_document("a = 1\na = 2\n").is_none());
    assert!(parse_document("just some words").is_none());
}
