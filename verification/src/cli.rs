//! What the command line asks for, and what it is told.

use vstd::prelude::*;
use vstd::string::*;
use crate::model::{option_view, TaskId, TaskIdView, TaskInput, TaskInputView, TaskStatus};
use crate::error::SchedulerError;
use crate::ports::{is_schedule_outcome, is_status_outcome, TaskSchedulerPort};
use crate::report::{notice_text, report_text, scheduled_notice, status_report, StatusReport};
use crate::store::{lemma_scheduled_is_terminal, lemma_submitted_resolves, resolves, scheduled};
use crate::text::{join_with, joined, text_views};

verus! {

/// The submission that the words of a command and a name make: the words
/// joined by single spaces, with no environment.
pub open spec fn input_of(command: Seq<String>, name: Option<String>) -> TaskInputView {
    TaskInputView { name: option_view(name), command: joined(text_views(command), " "@), env: None }
}

/// A request to run a command.
#[derive(Debug, PartialEq)]
pub struct TaskRunOpt {
    /// The words of the command.
    pub command: Vec<String>,
    /// A name to find the task by.
    pub name: Option<String>,
    /// Whether to wait for the end of the run and show its status.
    pub wait: bool,
}

impl TaskRunOpt {
    /// The submission that the request makes.
    pub fn into(self) -> (input: TaskInput)
        ensures
            input@ == input_of(self.command@, self.name),
    {
        TaskInput { command: join_with(&self.command, " "), name: self.name, env: None }
    }
}

/// The reference that a request for a status names.
pub open spec fn reference_of(request: TaskStatusOpt) -> TaskIdView {
    match request {
        TaskStatusOpt::Id { id } => TaskIdView::Id(id@),
        TaskStatusOpt::Name { name } => TaskIdView::Name(name@),
    }
}

/// A request for the status of a task, by identifier or by name.
#[derive(Debug, PartialEq)]
pub enum TaskStatusOpt {
    Id { id: String },
    Name { name: String },
}

impl TaskStatusOpt {
    /// The reference that the request names.
    pub fn into(self) -> (reference: TaskId)
        ensures
            reference@ == reference_of(self),
    {
        match self {
            TaskStatusOpt::Id { id } => TaskId::Id(id),
            TaskStatusOpt::Name { name } => TaskId::Name(name),
        }
    }
}

/// What the command line asks for.
#[derive(Debug, PartialEq)]
pub enum CliOpt {
    Run(TaskRunOpt),
    Status(TaskStatusOpt),
}

/// A command and a name as the command line gives them, with nothing else
/// to choose.
#[derive(Debug, PartialEq)]
pub struct TaskCliInput {
    /// The words of the command.
    pub command: Vec<String>,
    /// A name to find the task by.
    pub name: Option<String>,
}

impl TaskCliInput {
    /// The submission that the request makes.
    pub fn into(self) -> (input: TaskInput)
        ensures
            input@ == input_of(self.command@, self.name),
    {
        TaskInput { command: join_with(&self.command, " "), name: self.name, env: None }
    }
}

/// What to show the user.
#[derive(Debug, PartialEq)]
pub enum Shown {
    /// The status of a task.
    Report(StatusReport),
    /// The notice that a task was scheduled.
    Notice(String),
    /// The task was scheduled, but its status could not be read.
    WaitFailure(SchedulerError),
}

/// What to show for the status that the scheduler answered, or its
/// failure.
pub fn show_status(found: Result<TaskStatus, SchedulerError>) -> (outcome: Result<
    Shown,
    SchedulerError,
>)
    ensures
        match found {
            Ok(status) => outcome matches Ok(Shown::Report(report)) && report.text@ == report_text(
                status@,
            ) && report.is_error == (status@ is Error),
            Err(error) => outcome matches Err(passed) && passed@ == error@,
        },
{
    match found {
        Ok(status) => Ok(Shown::Report(status_report(&status))),
        Err(error) => Err(error),
    }
}

/// What to show for a task that was scheduled under `reference`: the
/// notice where the request did not wait, else the status that the
/// scheduler answered, or its failure to answer.
pub fn show_scheduled(
    reference: &TaskId,
    waited: Option<Result<TaskStatus, SchedulerError>>,
) -> (shown: Shown)
    ensures
        match waited {
            None => shown matches Shown::Notice(text) && text@ == notice_text(reference@),
            Some(Ok(status)) => shown matches Shown::Report(report) && report.text@ == report_text(
                status@,
            ) && report.is_error == (status@ is Error),
            Some(Err(error)) => shown matches Shown::WaitFailure(kept) && kept@ == error@,
        },
{
    match waited {
        None => Shown::Notice(scheduled_notice(reference)),
        Some(Ok(status)) => Shown::Report(status_report(&status)),
        Some(Err(error)) => Shown::WaitFailure(error),
    }
}

/// Does what the command line asks for and says what to show.
///
/// A request to run submits the command. Where the scheduler answers with a
/// reference, the user is shown the notice for it or, on a request that
/// waits, the status of the new task, which is then `Success`; a store that
/// fails to give that status is no failure of the request. A request for a
/// status shows the status that the scheduler answers. A failure of the
/// scheduler is passed on.
pub fn run<P: TaskSchedulerPort>(port: &mut P, options: CliOpt) -> (outcome: Result<
    Shown,
    SchedulerError,
>)
    ensures
        match options {
            CliOpt::Run(request) => match outcome {
                Ok(shown) => {
                    &&& scheduled(
                        old(port).records(),
                        final(port).records(),
                        input_of(request.command@, request.name),
                        final(port).records().last().task.reference(),
                    )
                    &&& match shown {
                        Shown::Notice(text) => !request.wait && text@ == notice_text(
                            final(port).records().last().task.reference(),
                        ),
                        Shown::Report(report) => request.wait && !report.is_error && report.text@
                            == report_text(final(port).records().last().status),
                        Shown::WaitFailure(error) => {
                            &&& request.wait
                            &&& error matches SchedulerError::Status { storage, .. }
                                && storage.fault is Backend
                        },
                    }
                },
                Err(error) => is_schedule_outcome(
                    old(port).records(),
                    final(port).records(),
                    input_of(request.command@, request.name),
                    Err(error),
                ),
            },
            CliOpt::Status(request) => {
                &&& final(port).records() == old(port).records()
                &&& match outcome {
                    Ok(Shown::Report(report)) => exists|i: int|
                        resolves(old(port).records(), reference_of(request), i) && report.text@
                            == report_text((#[trigger] old(port).records()[i]).status)
                            && report.is_error == (old(port).records()[i].status is Error),
                    Ok(_) => false,
                    Err(error) => is_status_outcome(
                        old(port).records(),
                        reference_of(request),
                        Err(error),
                    ),
                }
            },
        },
{
    match options {
        CliOpt::Run(task_run_input) => {
            let wait = task_run_input.wait;
            let ghost before = port.records();
            let ghost input = input_of(task_run_input.command@, task_run_input.name);
            let result = port.schedule_task(task_run_input.into())?;
            let ghost after = port.records();
            proof {
                lemma_submitted_resolves(before, after, input, after.last().status);
            }
            let waited = if wait {
                let found = port.task_status(result.clone());
                proof {
                    assert(after[after.len() - 1].answers_to(result@));
                    if found is Ok {
                        let i = choose|i: int|
                            resolves(after, result@, i) && (#[trigger] after[i]).status
                                == found->Ok_0@;
                        lemma_scheduled_is_terminal(before, after, input, result@, i);
                    }
                }
                Some(found)
            } else {
                None
            };
            Ok(show_scheduled(&result, waited))
        },
        CliOpt::Status(task_status_input) => {
            let found = port.task_status(task_status_input.into());
            show_status(found)
        },
    }
}

} // verus!
