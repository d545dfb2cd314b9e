use tasc::error::TaskError;
use tasc::execution::{validate_output, CommandLine, CommandOutput, LocalExecutionAdapter};
use tasc::model::{Task, TaskStatus};

fn words(items: &[&str]) -> Vec<String> {
    items.iter().map(|w| w.to_string()).collect()
}

fn task(command: &str, env: Option<im::HashMap<String, String>>) -> Task {
    Task { id: "id".to_string(), name: None, command: command.to_string(), env }
}

#[test]
fn command_line_takes_the_first_word_as_program() {
    let adapter = LocalExecutionAdapter::new();
    assert_eq!(
        adapter.command_line(&task("ls -l /home", None)),
        Ok(CommandLine { program: "ls".to_string(), args: words(&["-l", "/home"]), env: vec![] })
    );
    assert_eq!(
        adapter.command_line(&task("  mv \t a\n b  ", None)),
        Ok(CommandLine { program: "mv".to_string(), args: words(&["a", "b"]), env: vec![] })
    );
    assert_eq!(
        adapter.command_line(&task("true", None)),
        Ok(CommandLine { program: "true".to_string(), args: vec![], env: vec![] })
    );
}

#[test]
fn empty_command_cannot_be_run() {
    let adapter = LocalExecutionAdapter::new();
    let expected =
        Err(TaskError::ExecutionError { source: "Command can't be empty".to_string() });
    assert_eq!(adapter.command_line(&task("", None)), expected);
    assert_eq!(adapter.command_line(&task("   \t\n", None)), expected);
    assert_eq!(adapter.command_line_of(vec![], &None), expected);
}

#[test]
fn command_line_sets_the_environment_of_the_task() {
    let adapter = LocalExecutionAdapter::new();
    let env = im::HashMap::from(vec![
        ("A".to_string(), "1".to_string()),
        ("B".to_string(), "2".to_string()),
    ]);
    let line = adapter.command_line(&task("env", Some(env))).unwrap();
    assert_eq!(line.program, "env");
    let mut set = line.env;
    set.sort();
    assert_eq!(
        set,
        vec![("A".to_string(), "1".to_string()), ("B".to_string(), "2".to_string())]
    );
}

#[test]
fn command_line_of_words() {
    let adapter = LocalExecutionAdapter::new();
    assert_eq!(
        adapter.command_line_of(words(&["echo", "a b", ""]), &None),
        Ok(CommandLine { program: "echo".to_string(), args: words(&["a b", ""]), env: vec![] })
    );
}

#[test]
fn success_gives_the_standard_output() {
    assert_eq!(
        validate_output(CommandOutput {
            success: true,
            stdout: b"file1\nfile2".to_vec(),
            stderr: b"warning".to_vec(),
        }),
        Ok(TaskStatus::Success("file1\nfile2".to_string()))
    );
    assert_eq!(
        validate_output(CommandOutput {
            success: true,
            stdout: "héllo €".as_bytes().to_vec(),
            stderr: vec![0xff],
        }),
        Ok(TaskStatus::Success("héllo €".to_string()))
    );
}

#[test]
fn failure_gives_the_standard_error() {
    assert_eq!(
        validate_output(CommandOutput {
            success: false,
            stdout: vec![0xff],
            stderr: b"No such file".to_vec(),
        }),
        Err(TaskError::CommandError("No such file".to_string()))
    );
}

#[test]
fn output_that_is_no_text_is_unexpected() {
    assert!(matches!(
        validate_output(CommandOutput { success: true, stdout: vec![0xc3, 0x28], stderr: vec![] }),
        Err(TaskError::UnexpectedError { .. })
    ));
    assert!(matches!(
        validate_output(CommandOutput { success: false, stdout: vec![], stderr: vec![0xff] }),
        Err(TaskError::UnexpectedError { .. })
    ));
}

#[test]
fn messages_of_run_failures() {
    let command = TaskError::CommandError("stderr".to_string());
    assert_eq!(command.message(), "Error running the command. Logs : \n stderr");
    assert_eq!(command.description(), "stderr");
    let execution = TaskError::ExecutionError { source: "spawn failed".to_string() };
    assert_eq!(execution.message(), "Error executing the command");
    assert_eq!(execution.description(), "spawn failed");
    let unexpected = TaskError::UnexpectedError { source: "bad utf8".to_string() };
    assert_eq!(unexpected.message(), "Unexpected error while processing the command");
    assert_eq!(unexpected.description(), "bad utf8");
}

#[test]
fn words_are_split_at_every_kind_of_white_space() {
    let adapter = LocalExecutionAdapter::new();
    assert_eq!(
        adapter.command_line(&task("echo\u{a0}a\u{2003}b\u{3000}c\u{85}d\u{b}e", None)),
        Ok(CommandLine {
            program: "echo".to_string(),
            args: words(&["a", "b", "c", "d", "e"]),
            env: vec![],
        })
    );
    assert_eq!(
        adapter.command_line(&task("\u{2028}\u{2029}\u{202f}\u{205f}\u{1680}", None)),
        Err(TaskError::ExecutionError { source: "Command can't be empty".to_string() })
    );
    assert_eq!(
        adapter.command_line(&task("a\u{200b}b", None)),
        Ok(CommandLine { program: "a\u{200b}b".to_string(), args: vec![], env: vec![] })
    );
}
