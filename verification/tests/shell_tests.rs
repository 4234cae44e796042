use minishell::command::Action;
use minishell::shell::{dispatch, not_found_message, tokenize, Dispatch};

fn words(parts: &[&str]) -> Vec<String> {
    parts.iter().map(|s| s.to_string()).collect()
}

fn token_texts(tokens: &[String]) -> Vec<&str> {
    tokens.iter().map(|s| s.as_str()).collect()
}

#[test]
fn print_joins_args() {
    let parts = words(&["print", "a", "b", "c"]);
    match dispatch(&parts) {
        Dispatch::Executed(Ok(Action::Output(s))) => assert_eq!(s, "a b c"),
        _ => panic!("print dispatched wrongly"),
    }
}

#[test]
fn print_no_args_outputs_empty_line() {
    let parts = words(&["print"]);
    match dispatch(&parts) {
        Dispatch::Executed(Ok(Action::Output(s))) => assert_eq!(s, ""),
        _ => panic!("print dispatched wrongly"),
    }
}

#[test]
fn unknown_command_not_found() {
    let parts = words(&["foo"]);
    match dispatch(&parts) {
        Dispatch::NotFound(m) => assert_eq!(m, "foo: command not found"),
        _ => panic!("unknown command dispatched wrongly"),
    }
}

#[test]
fn exit_terminates() {
    let parts = words(&["exit"]);
    assert!(matches!(
        dispatch(&parts),
        Dispatch::Executed(Ok(Action::Terminate))
    ));
}

#[test]
fn ls_defaults_to_current_directory() {
    let parts = words(&["ls"]);
    match dispatch(&parts) {
        Dispatch::Executed(Ok(Action::ListDirectory(req))) => {
            assert_eq!(req.path, ".");
            assert!(!req.show_hidden);
            assert!(!req.recursive);
        }
        _ => panic!("ls dispatched wrongly"),
    }
}

#[test]
fn ls_parses_flags_and_path() {
    let parts = words(&["ls", "-a", "-r", "sub"]);
    match dispatch(&parts) {
        Dispatch::Executed(Ok(Action::ListDirectory(req))) => {
            assert_eq!(req.path, "sub");
            assert!(req.show_hidden);
            assert!(req.recursive);
        }
        _ => panic!("ls dispatched wrongly"),
    }
}

#[test]
fn ls_accepts_combined_flags() {
    let parts = words(&["ls", "-ra"]);
    match dispatch(&parts) {
        Dispatch::Executed(Ok(Action::ListDirectory(req))) => {
            assert_eq!(req.path, ".");
            assert!(req.show_hidden);
            assert!(req.recursive);
        }
        _ => panic!("ls dispatched wrongly"),
    }
}

#[test]
fn ls_takes_first_non_flag_as_path() {
    let parts = words(&["ls", "-a", "one", "two"]);
    match dispatch(&parts) {
        Dispatch::Executed(Ok(Action::ListDirectory(req))) => {
            assert_eq!(req.path, "one");
            assert!(req.show_hidden);
            assert!(!req.recursive);
        }
        _ => panic!("ls dispatched wrongly"),
    }
}

#[test]
fn tokenize_splits_on_whitespace() {
    let line = "  print  a\tb\n".to_string();
    let tokens = tokenize(&line);
    assert_eq!(token_texts(&tokens), vec!["print", "a", "b"]);
}

#[test]
fn tokenize_empty_line_gives_no_tokens() {
    assert!(tokenize(&String::new()).is_empty());
    assert!(tokenize(&" \t \n".to_string()).is_empty());
}

#[test]
fn tokenize_single_word() {
    let tokens = tokenize(&"exit\n".to_string());
    assert_eq!(token_texts(&tokens), vec!["exit"]);
}

#[test]
fn not_found_message_names_the_command() {
    let m = not_found_message(&"nope".to_string());
    assert_eq!(m, "nope: command not found");
}
