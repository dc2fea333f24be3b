use command_runner::command::CommandSpec;

#[test]
fn new_keeps_name_and_arguments_in_order() {
    let spec = CommandSpec::new("ls", &["-l", "-a", "/tmp"]);
    assert_eq!(spec.command(), "ls");
    assert_eq!(spec.args(), &vec!["-l".to_string(), "-a".to_string(), "/tmp".to_string()]);
}

#[test]
fn new_without_arguments_has_none() {
    let spec = CommandSpec::new("true", &[]);
    assert_eq!(spec.command(), "true");
    assert!(spec.args().is_empty());
}

#[test]
fn new_leaves_arguments_unread() {
    let spec = CommandSpec::new("echo", &["a b", "$HOME", "'quoted'", ""]);
    assert_eq!(
        spec.args(),
        &vec!["a b".to_string(), "$HOME".to_string(), "'quoted'".to_string(), String::new()]
    );
}

#[test]
fn shell_runs_bash_with_the_script_as_one_argument() {
    let spec = CommandSpec::shell("echo Hello, world!");
    assert_eq!(spec.command(), "bash");
    assert_eq!(spec.args(), &vec!["-c".to_string(), "echo Hello, world!".to_string()]);
}

#[test]
fn shell_takes_an_empty_script() {
    let spec = CommandSpec::shell("");
    assert_eq!(spec.command(), "bash");
    assert_eq!(spec.args(), &vec!["-c".to_string(), String::new()]);
}
