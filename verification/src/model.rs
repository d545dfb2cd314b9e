//! Tasks, their identifiers and their status.

use vstd::prelude::*;
use crate::environment::{env_bindings, env_clone};

verus! {

/// A command to run, with the identifier it was given at submission.
#[derive(Debug, PartialEq)]
pub struct Task {
    pub id: String,
    pub name: Option<String>,
    pub command: String,
    pub env: Option<im::HashMap<String, String>>,
}

/// What a task is as a mathematical value.
pub struct TaskView {
    pub id: Seq<char>,
    pub name: Option<Seq<char>>,
    pub command: Seq<char>,
    pub env: Option<Map<Seq<char>, Seq<char>>>,
}

/// The characters of an optional string.
pub open spec fn option_view(text: Option<String>) -> Option<Seq<char>> {
    match text {
        Some(s) => Some(s@),
        None => None,
    }
}

/// The bindings of an optional environment.
pub open spec fn env_view(env: Option<im::HashMap<String, String>>) -> Option<
    Map<Seq<char>, Seq<char>>,
> {
    match env {
        Some(e) => Some(env_bindings(e)),
        None => None,
    }
}

impl View for Task {
    type V = TaskView;

    open spec fn view(&self) -> TaskView {
        TaskView {
            id: self.id@,
            name: option_view(self.name),
            command: self.command@,
            env: env_view(self.env),
        }
    }
}

/// Copies an optional string.
pub fn clone_option(text: &Option<String>) -> (copy: Option<String>)
    ensures
        option_view(copy) == option_view(*text),
{
    match text {
        Some(s) => Some(s.clone()),
        None => None,
    }
}

/// Copies an optional environment.
pub fn clone_env(env: &Option<im::HashMap<String, String>>) -> (copy: Option<
    im::HashMap<String, String>,
>)
    ensures
        env_view(copy) == env_view(*env),
{
    match env {
        Some(e) => Some(env_clone(e)),
        None => None,
    }
}

impl Clone for Task {
    fn clone(&self) -> (copy: Task)
        ensures
            copy@ == self@,
    {
        Task {
            id: self.id.clone(),
            name: clone_option(&self.name),
            command: self.command.clone(),
            env: clone_env(&self.env),
        }
    }
}

/// Where a task stands in its lifecycle.
#[derive(Debug, PartialEq)]
pub enum TaskStatus {
    /// Stored, with no outcome yet.
    Scheduled,
    /// The command succeeded; holds what it wrote to standard output.
    Success(String),
    /// The command failed or could not be run; holds standard error or a
    /// description of the failure.
    Error(String),
}

/// A status as a mathematical value.
pub enum StatusView {
    Scheduled,
    Success(Seq<char>),
    Error(Seq<char>),
}

impl StatusView {
    /// A status that ends the lifecycle.
    pub open spec fn is_terminal(self) -> bool {
        !(self is Scheduled)
    }
}

impl View for TaskStatus {
    type V = StatusView;

    open spec fn view(&self) -> StatusView {
        match self {
            TaskStatus::Scheduled => StatusView::Scheduled,
            TaskStatus::Success(output) => StatusView::Success(output@),
            TaskStatus::Error(message) => StatusView::Error(message@),
        }
    }
}

impl Clone for TaskStatus {
    fn clone(&self) -> (copy: TaskStatus)
        ensures
            copy@ == self@,
    {
        match self {
            TaskStatus::Scheduled => TaskStatus::Scheduled,
            TaskStatus::Success(output) => TaskStatus::Success(output.clone()),
            TaskStatus::Error(message) => TaskStatus::Error(message.clone()),
        }
    }
}

impl TaskStatus {
    /// Whether the status ends the lifecycle.
    pub fn is_terminal(&self) -> (terminal: bool)
        ensures
            terminal == self@.is_terminal(),
    {
        match self {
            TaskStatus::Scheduled => false,
            _ => true,
        }
    }
}

/// A reference to a task: by its generated identifier or by its name.
#[derive(Debug, PartialEq)]
pub enum TaskId {
    Id(String),
    Name(String),
}

/// A task reference as a mathematical value.
pub enum TaskIdView {
    Id(Seq<char>),
    Name(Seq<char>),
}

impl View for TaskId {
    type V = TaskIdView;

    open spec fn view(&self) -> TaskIdView {
        match self {
            TaskId::Id(id) => TaskIdView::Id(id@),
            TaskId::Name(name) => TaskIdView::Name(name@),
        }
    }
}

impl Clone for TaskId {
    fn clone(&self) -> (copy: TaskId)
        ensures
            copy@ == self@,
    {
        match self {
            TaskId::Id(id) => TaskId::Id(id.clone()),
            TaskId::Name(name) => TaskId::Name(name.clone()),
        }
    }
}

impl TaskView {
    /// The reference by which a task is addressed: its name where it has
    /// one, else its identifier.
    pub open spec fn reference(self) -> TaskIdView {
        match self.name {
            Some(name) => TaskIdView::Name(name),
            None => TaskIdView::Id(self.id),
        }
    }
}

impl TaskId {
    /// The reference by which `task` is addressed: its name where it has
    /// one, else its identifier.
    pub fn from(task: &Task) -> (id: TaskId)
        ensures
            id@ == task@.reference(),
    {
        match &task.name {
            Some(name) => TaskId::Name(name.clone()),
            None => TaskId::Id(task.id.clone()),
        }
    }
}

/// What a caller submits: a command, with an optional name and environment.
#[derive(Debug, PartialEq)]
pub struct TaskInput {
    pub name: Option<String>,
    pub command: String,
    pub env: Option<im::HashMap<String, String>>,
}

/// A submission as a mathematical value.
pub struct TaskInputView {
    pub name: Option<Seq<char>>,
    pub command: Seq<char>,
    pub env: Option<Map<Seq<char>, Seq<char>>>,
}

impl View for TaskInput {
    type V = TaskInputView;

    open spec fn view(&self) -> TaskInputView {
        TaskInputView {
            name: option_view(self.name),
            command: self.command@,
            env: env_view(self.env),
        }
    }
}

impl TaskInputView {
    /// The task that a submission becomes once it has an identifier.
    pub open spec fn with_id(self, id: Seq<char>) -> TaskView {
        TaskView { id, name: self.name, command: self.command, env: self.env }
    }
}

} // verus!
