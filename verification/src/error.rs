//! The failures of running a task, of the store and of the scheduler.

use vstd::prelude::*;
use vstd::string::*;
use crate::model::{TaskId, TaskIdView};

verus! {

/// Why running a command failed.
#[derive(Debug, PartialEq)]
pub enum TaskError {
    /// The command ran and reported failure; holds its standard error.
    CommandError(String),
    /// The command could not be run at all; `source` says why.
    ExecutionError { source: String },
    /// The command's output could not be read as text; `source` says why.
    UnexpectedError { source: String },
}

/// A run failure as a mathematical value.
pub enum TaskErrorView {
    CommandError(Seq<char>),
    ExecutionError { source: Seq<char> },
    UnexpectedError { source: Seq<char> },
}

impl TaskErrorView {
    /// What is recorded as the message of a failed task: the standard error
    /// of a command that failed, else the description of what went wrong.
    pub open spec fn description(self) -> Seq<char> {
        match self {
            TaskErrorView::CommandError(stderr) => stderr,
            TaskErrorView::ExecutionError { source } => source,
            TaskErrorView::UnexpectedError { source } => source,
        }
    }

    /// The heading under which each kind of failure is reported.
    pub open spec fn message(self) -> Seq<char> {
        match self {
            TaskErrorView::CommandError(stderr) => "Error running the command. Logs : \n "@
                + stderr,
            TaskErrorView::ExecutionError { .. } => "Error executing the command"@,
            TaskErrorView::UnexpectedError { .. } =>
                "Unexpected error while processing the command"@,
        }
    }
}

impl View for TaskError {
    type V = TaskErrorView;

    open spec fn view(&self) -> TaskErrorView {
        match self {
            TaskError::CommandError(stderr) => TaskErrorView::CommandError(stderr@),
            TaskError::ExecutionError { source } => TaskErrorView::ExecutionError {
                source: source@,
            },
            TaskError::UnexpectedError { source } => TaskErrorView::UnexpectedError {
                source: source@,
            },
        }
    }
}

impl Clone for TaskError {
    fn clone(&self) -> (copy: TaskError)
        ensures
            copy@ == self@,
    {
        match self {
            TaskError::CommandError(stderr) => TaskError::CommandError(stderr.clone()),
            TaskError::ExecutionError { source } => TaskError::ExecutionError {
                source: source.clone(),
            },
            TaskError::UnexpectedError { source } => TaskError::UnexpectedError {
                source: source.clone(),
            },
        }
    }
}

impl TaskError {
    /// What is recorded as the message of a failed task.
    pub fn description(&self) -> (text: String)
        ensures
            text@ == self@.description(),
    {
        match self {
            TaskError::CommandError(stderr) => stderr.clone(),
            TaskError::ExecutionError { source } => source.clone(),
            TaskError::UnexpectedError { source } => source.clone(),
        }
    }

    /// The heading under which the failure is reported.
    pub fn message(&self) -> (text: String)
        ensures
            text@ == self@.message(),
    {
        match self {
            TaskError::CommandError(stderr) => String::from_str(
                "Error running the command. Logs : \n ",
            ).concat(stderr.as_str()),
            TaskError::ExecutionError { .. } => String::from_str("Error executing the command"),
            TaskError::UnexpectedError { .. } => String::from_str(
                "Unexpected error while processing the command",
            ),
        }
    }
}

/// The operation of the store that failed.
#[derive(Clone, Copy, Debug, PartialEq, Eq, Structural)]
pub enum StorageOperation {
    Save,
    Status,
    Complete,
}

/// The way in which an operation of the store failed.
#[derive(Debug, PartialEq)]
pub enum StorageFault {
    /// No task answers to the reference.
    NotFound,
    /// More than one task answers to the reference.
    Ambiguous,
    /// The store itself failed; holds what it reported.
    Backend(String),
}

/// A fault of the store as a mathematical value.
pub enum StorageFaultView {
    NotFound,
    Ambiguous,
    Backend(Seq<char>),
}

impl StorageFaultView {
    /// What each fault says of itself.
    pub open spec fn message(self) -> Seq<char> {
        match self {
            StorageFaultView::NotFound => "No task correspond to your selection"@,
            StorageFaultView::Ambiguous => "More than 1 task correspond to your selection"@,
            StorageFaultView::Backend(report) => report,
        }
    }
}

impl View for StorageFault {
    type V = StorageFaultView;

    open spec fn view(&self) -> StorageFaultView {
        match self {
            StorageFault::NotFound => StorageFaultView::NotFound,
            StorageFault::Ambiguous => StorageFaultView::Ambiguous,
            StorageFault::Backend(report) => StorageFaultView::Backend(report@),
        }
    }
}

impl Clone for StorageFault {
    fn clone(&self) -> (copy: StorageFault)
        ensures
            copy@ == self@,
    {
        match self {
            StorageFault::NotFound => StorageFault::NotFound,
            StorageFault::Ambiguous => StorageFault::Ambiguous,
            StorageFault::Backend(report) => StorageFault::Backend(report.clone()),
        }
    }
}

impl StorageFault {
    /// What the fault says of itself.
    pub fn message(&self) -> (text: String)
        ensures
            text@ == self@.message(),
    {
        match self {
            StorageFault::NotFound => String::from_str("No task correspond to your selection"),
            StorageFault::Ambiguous => String::from_str(
                "More than 1 task correspond to your selection",
            ),
            StorageFault::Backend(report) => report.clone(),
        }
    }
}

/// A failure of the store: the operation, the task it was about and what
/// went wrong.
#[derive(Debug, PartialEq)]
pub struct StorageError {
    pub operation: StorageOperation,
    pub subject: TaskId,
    pub fault: StorageFault,
}

/// A failure of the store as a mathematical value.
pub struct StorageErrorView {
    pub operation: StorageOperation,
    pub subject: TaskIdView,
    pub fault: StorageFaultView,
}

impl View for StorageError {
    type V = StorageErrorView;

    open spec fn view(&self) -> StorageErrorView {
        StorageErrorView {
            operation: self.operation,
            subject: self.subject@,
            fault: self.fault@,
        }
    }
}

impl Clone for StorageError {
    fn clone(&self) -> (copy: StorageError)
        ensures
            copy@ == self@,
    {
        StorageError {
            operation: self.operation,
            subject: self.subject.clone(),
            fault: self.fault.clone(),
        }
    }
}

impl StorageError {
    /// What the failure says of itself: the message of its fault.
    pub fn message(&self) -> (text: String)
        ensures
            text@ == self@.fault.message(),
    {
        self.fault.message()
    }
}

/// Why scheduling a task or asking for its status failed.
#[derive(Debug, PartialEq)]
pub enum SchedulerError {
    /// The new task could not be stored; nothing was run.
    Save { task_id: String, storage: StorageError },
    /// The run failed, and the failure was recorded as the task's status.
    Execution { task_id: String, execution: TaskError },
    /// The run failed and recording that failed too. The failure of the
    /// store leads; the failure of the run is kept beside it.
    Unrecorded { task_id: String, storage: StorageError, execution: TaskError },
    /// The run succeeded but its outcome could not be recorded: the failure
    /// of the store as it came.
    Storage(StorageError),
    /// The status of a task could not be read.
    Status { id: TaskId, storage: StorageError },
}

/// A scheduler failure as a mathematical value.
pub enum SchedulerErrorView {
    Save { task_id: Seq<char>, storage: StorageErrorView },
    Execution { task_id: Seq<char>, execution: TaskErrorView },
    Unrecorded { task_id: Seq<char>, storage: StorageErrorView, execution: TaskErrorView },
    Storage(StorageErrorView),
    Status { id: TaskIdView, storage: StorageErrorView },
}

impl SchedulerErrorView {
    /// What the caller is told first: the stage that failed and the task,
    /// or the words of the store where its failure is passed on as it came.
    pub open spec fn message(self) -> Seq<char> {
        match self {
            SchedulerErrorView::Save { task_id, .. } => "Error storing task "@ + task_id
                + " during schedule"@,
            SchedulerErrorView::Execution { task_id, .. } => "Error during task "@ + task_id
                + " execution"@,
            SchedulerErrorView::Unrecorded { task_id, .. } => "Error executing task "@ + task_id
                + " and during status save execution"@,
            SchedulerErrorView::Storage(storage) => storage.fault.message(),
            SchedulerErrorView::Status { .. } => "Error on task status"@,
        }
    }
}

impl View for SchedulerError {
    type V = SchedulerErrorView;

    open spec fn view(&self) -> SchedulerErrorView {
        match self {
            SchedulerError::Save { task_id, storage } => SchedulerErrorView::Save {
                task_id: task_id@,
                storage: storage@,
            },
            SchedulerError::Execution { task_id, execution } => SchedulerErrorView::Execution {
                task_id: task_id@,
                execution: execution@,
            },
            SchedulerError::Unrecorded { task_id, storage, execution } =>
                SchedulerErrorView::Unrecorded {
                    task_id: task_id@,
                    storage: storage@,
                    execution: execution@,
                },
            SchedulerError::Storage(storage) => SchedulerErrorView::Storage(storage@),
            SchedulerError::Status { id, storage } => SchedulerErrorView::Status {
                id: id@,
                storage: storage@,
            },
        }
    }
}

impl SchedulerError {
    /// What the caller is told first.
    pub fn message(&self) -> (text: String)
        ensures
            text@ == self@.message(),
    {
        match self {
            SchedulerError::Save { task_id, .. } => String::from_str("Error storing task ").concat(
                task_id.as_str(),
            ).concat(" during schedule"),
            SchedulerError::Execution { task_id, .. } => String::from_str(
                "Error during task ",
            ).concat(task_id.as_str()).concat(" execution"),
            SchedulerError::Unrecorded { task_id, .. } => String::from_str(
                "Error executing task ",
            ).concat(task_id.as_str()).concat(" and during status save execution"),
            SchedulerError::Storage(storage) => storage.message(),
            SchedulerError::Status { .. } => String::from_str("Error on task status"),
        }
    }
}

} // verus!
