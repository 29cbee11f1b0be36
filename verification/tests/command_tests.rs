use bote::command::parse_command;
use bote::command::CommandError;

#[test]
fn a_simple_command_splits_into_program_and_args() {
    let p = parse_command("make install -j4").unwrap();
    assert_eq!(p.program, "make".to_string());
    assert_eq!(p.args, vec!["install".to_string(), "-j4".to_string()]);
}

#[test]
fn quoted_words_stay_together() {
    let p = parse_command("echo 'hello world'").unwrap();
    assert_eq!(p.program, "echo".to_string());
    assert_eq!(p.args, vec!["hello world".to_string()]);
}

#[test]
fn an_empty_command_fails_without_spawning() {
    let r = parse_command("");
    assert!(matches!(r, Err(CommandError::Empty)));
}

#[test]
fn a_blank_command_fails_without_spawning() {
    let r = parse_command("   ");
    assert!(matches!(r, Err(CommandError::Empty)));
}

#[test]
fn unbalanced_quoting_is_a_tokenize_error() {
    let r = parse_command("echo 'unterminated");
    match r {
        Err(CommandError::Tokenize { cmdline }) => {
            assert_eq!(cmdline, "echo 'unterminated".to_string());
        }
        _ => panic!("expected a tokenize error"),
    }
}

#[test]
fn command_error_messages_name_the_problem() {
    let e = CommandError::Empty;
    assert_eq!(e.message(), "command is empty".to_string());
    let e = CommandError::Tokenize { cmdline: "x '".to_string() };
    assert_eq!(e.message(), "failed to parse the given command: x '".to_string());
}
