use minishell::command::ListRequest;
use minishell::listing::{format_entries, strip_dot_slash, Entry};

fn entry(name: &str, path: &str, is_dir: bool) -> Entry {
    Entry { name: name.to_string(), path: path.to_string(), is_dir }
}

#[test]
fn hides_dotfiles_by_default() {
    let entries = vec![
        entry(".git", "./.git", true),
        entry("a", "./a", false),
        entry(".hidden", "./.hidden", false),
        entry("b", "./b", false),
    ];
    assert_eq!(format_entries(&entries, false), "a b");
}

#[test]
fn shows_dotfiles_when_asked() {
    let entries = vec![entry(".hidden", "./.hidden", false), entry("b", "./b", false)];
    assert_eq!(format_entries(&entries, true), ".hidden b");
}

#[test]
fn directories_are_blue_and_bold() {
    let entries = vec![entry("sub", "./sub", true)];
    assert_eq!(format_entries(&entries, false), "\x1b[34m\x1b[1msub\x1b[0m");
}

#[test]
fn no_separator_after_last_shown_entry() {
    // A hidden entry after the last shown one adds no trailing space:
    // the separator follows an entry only when a later entry is shown.
    let entries = vec![entry("a", "./a", false), entry(".h", "./.h", false)];
    assert_eq!(format_entries(&entries, false), "a");
}

#[test]
fn hidden_entries_between_shown_ones_keep_one_separator() {
    let entries = vec![
        entry("a", "./a", false),
        entry(".h", "./.h", false),
        entry("b", "./b", false),
    ];
    assert_eq!(format_entries(&entries, false), "a b");
}

#[test]
fn all_hidden_gives_empty_line() {
    let entries = vec![entry(".h", "./.h", false), entry(".g", "./.g", true)];
    assert_eq!(format_entries(&entries, false), "");
}

#[test]
fn empty_directory_gives_empty_line() {
    let entries: Vec<Entry> = Vec::new();
    assert_eq!(format_entries(&entries, false), "");
}

#[test]
fn strip_dot_slash_removes_leading_prefix() {
    assert_eq!(strip_dot_slash(&"./x".to_string()), "x");
    assert_eq!(strip_dot_slash(&"x/y".to_string()), "x/y");
    assert_eq!(strip_dot_slash(&".".to_string()), ".");
    assert_eq!(strip_dot_slash(&"./".to_string()), "");
    assert_eq!(strip_dot_slash(&".hidden".to_string()), ".hidden");
}

#[test]
fn recursion_follows_directories_only() {
    let req = ListRequest { path: ".".to_string(), show_hidden: false, recursive: true };
    assert!(req.descends_into(&entry("sub", "./sub", true)));
    assert!(!req.descends_into(&entry("file", "./file", false)));
    let flat = ListRequest { path: ".".to_string(), show_hidden: false, recursive: false };
    assert!(!flat.descends_into(&entry("sub", "./sub", true)));
}

#[test]
fn hidden_entries_are_hidden_unless_asked() {
    let req = ListRequest { path: ".".to_string(), show_hidden: false, recursive: false };
    assert!(req.hides(&entry(".h", "./.h", false)));
    assert!(!req.hides(&entry("h", "./h", false)));
    let all = ListRequest { path: ".".to_string(), show_hidden: true, recursive: false };
    assert!(!all.hides(&entry(".h", "./.h", false)));
}

#[test]
fn nested_paths_keep_their_parents() {
    let entries = vec![entry("inner", "./sub/inner", false)];
    assert_eq!(format_entries(&entries, false), "sub/inner");
}
