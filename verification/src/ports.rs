//! What the scheduler needs from its surroundings: a store, an executor and
//! a source of identifiers; and what it offers to its callers.

use vstd::prelude::*;
use crate::error::{SchedulerError, StorageError, StorageOperation, TaskError};
use crate::model::{StatusView, Task, TaskId, TaskIdView, TaskInput, TaskInputView, TaskStatus};
use crate::store::{completed, known, name_taken, resolves, saved, scheduled, submitted, Record};

verus! {

/// Keeps tasks and their status, and finds them by identifier or by name.
pub trait TaskStoragePort {
    /// What the store holds.
    spec fn records(&self) -> Seq<Record>;

    /// Adds `task` as scheduled. A task that clashes with a stored one is
    /// refused; a store that fails has stored nothing. Every failure of a
    /// store names the operation that failed and the task it was about.
    fn save(&mut self, task: Task) -> (outcome: Result<Task, StorageError>)
        ensures
            match outcome {
                Ok(stored) => stored@ == task@ && saved(
                    old(self).records(),
                    final(self).records(),
                    task@,
                ),
                Err(error) => {
                    &&& final(self).records() == old(self).records()
                    &&& error.operation == StorageOperation::Save
                    &&& error.subject@ == task@.reference()
                },
            },
    ;

    /// The status of the one task that `id` refers to. The store is left as
    /// it was.
    fn status(&mut self, id: TaskId) -> (outcome: Result<TaskStatus, StorageError>)
        ensures
            final(self).records() == old(self).records(),
            match outcome {
                Ok(status) => exists|i: int|
                    resolves(old(self).records(), id@, i) && (#[trigger] old(self).records()[i]).status
                        == status@,
                Err(error) => {
                    &&& error.operation == StorageOperation::Status
                    &&& error.subject@ == id@
                    &&& error.fault is NotFound ==> !known(old(self).records(), id@)
                    &&& error.fault is Ambiguous ==> known(old(self).records(), id@) && !exists|
                        i: int,
                    | resolves(old(self).records(), id@, i)
                },
            },
    ;

    /// Gives the status `status` to the task that `task` refers to. A
    /// scheduled task takes it; a task that has ended keeps the status it
    /// ended in, and the store answers `Ok` all the same. A store that fails
    /// has changed nothing, and it fails where no such task is stored.
    fn complete(&mut self, task: &Task, status: TaskStatus) -> (outcome: Result<(), StorageError>)
        ensures
            match outcome {
                Ok(_) => completed(
                    old(self).records(),
                    final(self).records(),
                    task@.reference(),
                    status@,
                ),
                Err(error) => {
                    &&& final(self).records() == old(self).records()
                    &&& error.operation == StorageOperation::Complete
                    &&& error.subject@ == task@.reference()
                },
            },
    ;
}

/// Runs the command of a task.
pub trait TaskExecutionPort {
    /// Runs the command to its end. A run that succeeded gives the status
    /// `Success` with what the command wrote.
    fn execute(&self, task: &Task) -> (outcome: Result<TaskStatus, TaskError>)
        ensures
            outcome matches Ok(status) ==> status@ is Success,
    ;
}

/// Hands out identifiers for new tasks.
pub trait IdGeneratorPort {
    /// A new identifier.
    fn generate_id(&self) -> String;
}

/// Whether `outcome` is an answer to the submission `input` that took the
/// records of the store from `before` to `after`.
///
/// A task that the store refuses is not run. Else the store gains one
/// record, the task with the status it ended in: `Success` where the answer
/// is `Ok`, `Error` with the description of the failure where the run
/// failed, and `Scheduled` where the store failed to record the end of the
/// run. The records that the store held before stay as they were. A failure
/// of the store is that of the stage at which it is reported: of saving for
/// `Save`, of recording the end of the run for `Unrecorded` and `Storage`.
pub open spec fn is_schedule_outcome(
    before: Seq<Record>,
    after: Seq<Record>,
    input: TaskInputView,
    outcome: Result<TaskId, SchedulerError>,
) -> bool {
    match outcome {
        Ok(reference) => scheduled(before, after, input, reference@),
        Err(SchedulerError::Save { task_id, storage }) => {
            &&& after == before
            &&& storage.operation == StorageOperation::Save
            &&& storage.subject@ == input.with_id(task_id@).reference()
        },
        Err(SchedulerError::Execution { task_id, execution }) => {
            &&& submitted(before, after, input, StatusView::Error(execution@.description()))
            &&& after.last().task.id == task_id@
        },
        Err(SchedulerError::Unrecorded { task_id, storage, .. }) => {
            &&& submitted(before, after, input, StatusView::Scheduled)
            &&& after.last().task.id == task_id@
            &&& storage.operation == StorageOperation::Complete
            &&& storage.subject@ == after.last().task.reference()
        },
        Err(SchedulerError::Storage(storage)) => {
            &&& submitted(before, after, input, StatusView::Scheduled)
            &&& storage.operation == StorageOperation::Complete
            &&& storage.subject@ == after.last().task.reference()
        },
        Err(SchedulerError::Status { .. }) => false,
    }
}

/// Whether `outcome` is an answer to the question for the status of the
/// task that `id` refers to, among `records`.
///
/// A status that is given is that of the one record that `id` resolves to.
/// `NotFound` is said only where no record answers, `Ambiguous` only where
/// several do.
pub open spec fn is_status_outcome(
    records: Seq<Record>,
    id: TaskIdView,
    outcome: Result<TaskStatus, SchedulerError>,
) -> bool {
    match outcome {
        Ok(status) => exists|i: int|
            resolves(records, id, i) && (#[trigger] records[i]).status == status@,
        Err(SchedulerError::Status { id: subject, storage }) => {
            &&& subject@ == id
            &&& storage.operation == StorageOperation::Status
            &&& storage.subject@ == id
            &&& storage.fault is NotFound ==> !known(records, id)
            &&& storage.fault is Ambiguous ==> known(records, id) && !exists|i: int|
                resolves(records, id, i)
        },
        Err(_) => false,
    }
}

/// What callers ask of the scheduler.
pub trait TaskSchedulerPort {
    /// What the store of the scheduler holds.
    spec fn records(&self) -> Seq<Record>;

    /// Stores the submitted task under a new identifier, runs it and
    /// records how the run ended. A submission whose name is taken is
    /// refused by the store.
    fn schedule_task(&mut self, input_task: TaskInput) -> (outcome: Result<TaskId, SchedulerError>)
        ensures
            is_schedule_outcome(old(self).records(), final(self).records(), input_task@, outcome),
            input_task@.name matches Some(name) && name_taken(old(self).records(), name)
                ==> outcome matches Err(SchedulerError::Save { .. }),
    ;

    /// The current status of the one task that `id` refers to, as the
    /// store gives it. The store is left as it was.
    fn task_status(&mut self, id: TaskId) -> (outcome: Result<TaskStatus, SchedulerError>)
        ensures
            final(self).records() == old(self).records(),
            is_status_outcome(old(self).records(), id@, outcome),
    ;
}

} // verus!
