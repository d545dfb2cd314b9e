//! What running a command on the local machine takes beside the process
//! itself: the command line of a task, and the reading of what the process
//! left behind.

use vstd::prelude::*;
use vstd::string::*;
use vstd::utf8::{decode_utf8, valid_utf8};
use crate::environment::{bindings_of, distinct_names, env_to_pairs, pair_views};
use crate::error::{TaskError, TaskErrorView};
use crate::model::{env_view, StatusView, Task, TaskStatus};
use crate::text::{split_words, text_views, words_of};

verus! {

#[verifier::external_type_specification]
#[verifier::external_body]
pub struct ExFromUtf8Error(std::string::FromUtf8Error);

/// The words that a vector of words holds, first to last.
pub uninterp spec fn token_items(tokens: im::Vector<String>) -> Seq<Seq<char>>;

/// Calls `im::Vector::from` on a `Vec`, which pushes its items to the back
/// of an empty vector one after the other.
#[verifier::external_body]
fn vector_from(tokens: Vec<String>) -> (vector: im::Vector<String>)
    ensures
        token_items(vector) == text_views(tokens@),
{
    im::Vector::from(tokens)
}

/// Calls `im::Vector::head`: the first word, or `None` of an empty vector.
#[verifier::external_body]
fn vector_head(tokens: &im::Vector<String>) -> (head: Option<&String>)
    ensures
        match head {
            Some(first) => token_items(*tokens).len() > 0 && first@ == token_items(*tokens)[0],
            None => token_items(*tokens).len() == 0,
        },
{
    tokens.head()
}

/// Calls `im::Vector::split_at`, which panics where `index` is past the
/// end: the words before `index` and the words from `index` on.
#[verifier::external_body]
fn vector_split_at(tokens: im::Vector<String>, index: usize) -> (halves: (
    im::Vector<String>,
    im::Vector<String>,
))
    requires
        index <= token_items(tokens).len(),
    ensures
        token_items(halves.0) == token_items(tokens).take(index as int),
        token_items(halves.1) == token_items(tokens).skip(index as int),
{
    tokens.split_at(index)
}

/// Walks `im::Vector::into_iter`: the words in their order, as a `Vec`.
#[verifier::external_body]
fn vector_into_vec(tokens: im::Vector<String>) -> (words: Vec<String>)
    ensures
        text_views(words@) == token_items(tokens),
{
    tokens.into_iter().collect()
}

/// Calls `String::from_utf8`: the text that the bytes encode, or an error
/// where they are no valid UTF-8.
#[verifier::external_body]
fn text_from_utf8(bytes: Vec<u8>) -> (text: Result<String, std::string::FromUtf8Error>)
    ensures
        match text {
            Ok(decoded) => valid_utf8(bytes@) && decoded@ == decode_utf8(bytes@),
            Err(_) => !valid_utf8(bytes@),
        },
{
    String::from_utf8(bytes)
}

/// Writes a `FromUtf8Error` with its `Debug`.
#[verifier::external_body]
fn utf8_error_text(error: &std::string::FromUtf8Error) -> (text: String) {
    format!("{:?}", error)
}

/// A program to start, with its arguments and the variables to set for it.
#[derive(Debug, PartialEq)]
pub struct CommandLine {
    pub program: String,
    pub args: Vec<String>,
    pub env: Vec<(String, String)>,
}

/// What a finished process left behind.
#[derive(Debug, PartialEq)]
pub struct CommandOutput {
    /// Whether the process ended with a success code.
    pub success: bool,
    pub stdout: Vec<u8>,
    pub stderr: Vec<u8>,
}

/// Whether `line` starts the first of `tokens` with the others as its
/// arguments, and sets the variables of `env`, each once.
pub open spec fn is_command_line(
    line: CommandLine,
    tokens: Seq<Seq<char>>,
    env: Option<Map<Seq<char>, Seq<char>>>,
) -> bool {
    &&& tokens.len() > 0
    &&& line.program@ == tokens[0]
    &&& text_views(line.args@) == tokens.skip(1)
    &&& distinct_names(pair_views(line.env@))
    &&& bindings_of(pair_views(line.env@)) == match env {
        Some(bindings) => bindings,
        None => Map::empty(),
    }
}

/// Runs commands on the local machine.
pub struct LocalExecutionAdapter {}

impl LocalExecutionAdapter {
    pub fn new() -> (adapter: LocalExecutionAdapter) {
        LocalExecutionAdapter {  }
    }

    /// The command line for the words `tokens` of a command and the
    /// environment of its task. A command without words cannot be run.
    pub fn command_line_of(
        &self,
        tokens: Vec<String>,
        env: &Option<im::HashMap<String, String>>,
    ) -> (line: Result<CommandLine, TaskError>)
        ensures
            line is Err <==> tokens@.len() == 0,
            match line {
                Ok(line) => is_command_line(line, text_views(tokens@), env_view(*env)),
                Err(error) => tokens@.len() == 0 && error@
                    == TaskErrorView::ExecutionError {
                    source: "Command can't be empty"@,
                },
            },
    {
        let ghost words = text_views(tokens@);
        let command_splitted = vector_from(tokens);
        let program = match vector_head(&command_splitted) {
            Some(first) => first.clone(),
            None => {
                return Err(
                    TaskError::ExecutionError {
                        source: String::from_str("Command can't be empty"),
                    },
                );
            },
        };
        let (_, rest) = vector_split_at(command_splitted, 1);
        let args = vector_into_vec(rest);
        let env = match env {
            Some(bindings) => env_to_pairs(bindings),
            None => Vec::new(),
        };
        proof {
            assert(pair_views(Seq::<(String, String)>::empty()) =~= Seq::empty());
        }
        Ok(CommandLine { program, args, env })
    }

    /// The command line of `task`: the first word of its command is the
    /// program, the other words are its arguments, and its environment is
    /// set. A command without words, the empty command among them, cannot
    /// be run.
    pub fn command_line(&self, task: &Task) -> (line: Result<CommandLine, TaskError>)
        ensures
            line is Err <==> words_of(task@.command).len() == 0,
            task@.command.len() == 0 ==> line is Err,
            match line {
                Ok(line) => is_command_line(line, words_of(task@.command), task@.env),
                Err(error) => error@ == TaskErrorView::ExecutionError {
                    source: "Command can't be empty"@,
                },
            },
    {
        let tokens = split_words(task.command.as_str());
        self.command_line_of(tokens, &task.env)
    }
}

/// How a run ended, read from what the process left behind: `Success` with
/// its standard output where it ended with a success code, else a
/// `CommandError` with its standard error; an `UnexpectedError` where the
/// stream to read is no valid UTF-8.
pub fn validate_output(output: CommandOutput) -> (outcome: Result<TaskStatus, TaskError>)
    ensures
        match outcome {
            Ok(status) => output.success && valid_utf8(output.stdout@) && status@
                == StatusView::Success(decode_utf8(output.stdout@)),
            Err(TaskError::CommandError(stderr)) => !output.success && valid_utf8(output.stderr@)
                && stderr@ == decode_utf8(output.stderr@),
            Err(TaskError::UnexpectedError { .. }) => !valid_utf8(
                if output.success {
                    output.stdout@
                } else {
                    output.stderr@
                },
            ),
            Err(TaskError::ExecutionError { .. }) => false,
        },
{
    if output.success {
        match text_from_utf8(output.stdout) {
            Ok(output_string) => Ok(TaskStatus::Success(output_string)),
            Err(error) => Err(TaskError::UnexpectedError { source: utf8_error_text(&error) }),
        }
    } else {
        match text_from_utf8(output.stderr) {
            Ok(stderr_string) => Err(TaskError::CommandError(stderr_string)),
            Err(error) => Err(TaskError::UnexpectedError { source: utf8_error_text(&error) }),
        }
    }
}

} // verus!
