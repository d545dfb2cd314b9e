//! The scheduler: it stores a submitted task, runs it at once and records
//! how the run ended.

use vstd::prelude::*;
use crate::error::{SchedulerError, StorageError, StorageOperation, TaskError};
use crate::model::{StatusView, Task, TaskId, TaskInput, TaskStatus, TaskView};
use crate::ports::{IdGeneratorPort, TaskExecutionPort, TaskSchedulerPort, TaskStoragePort};
use crate::store::{
    added, changed_at, clashes, completed, completed_with_success, lemma_changed_last,
    lemma_name_taken_clashes, name_taken, next_status, saved, scheduled, Record,
};

verus! {

/// The status that is recorded for a run: what a successful run returned,
/// or `Error` with the description of the failure.
pub open spec fn status_to_record(execution: Result<TaskStatus, TaskError>) -> StatusView {
    match execution {
        Ok(status) => status@,
        Err(error) => StatusView::Error(error@.description()),
    }
}

/// Whether `outcome` is what the scheduler answers for `task` after a run
/// that ended as `execution`, once recording it ended as `completion`.
pub open spec fn is_outcome(
    task: Task,
    execution: Result<TaskStatus, TaskError>,
    completion: Result<(), StorageError>,
    outcome: Result<TaskId, SchedulerError>,
) -> bool {
    match (execution, completion) {
        (Ok(_), Ok(_)) => outcome matches Ok(id) && id@ == task@.reference(),
        (Ok(_), Err(fault)) => outcome matches Err(SchedulerError::Storage(storage)) && storage@
            == fault@,
        (Err(error), Ok(_)) => outcome matches Err(
            SchedulerError::Execution { task_id, execution },
        ) && task_id@ == task@.id && execution@ == error@,
        (Err(error), Err(fault)) => outcome matches Err(
            SchedulerError::Unrecorded { task_id, storage, execution },
        ) && task_id@ == task@.id && storage@ == fault@ && execution@ == error@,
    }
}

/// The task that a submission becomes under the identifier `id`.
pub fn task(input: TaskInput, id: String) -> (task: Task)
    ensures
        task@ == input@.with_id(id@),
{
    Task { id, command: input.command, name: input.name, env: input.env }
}

/// The status to record for a run that ended as `execution`.
pub fn recorded_status(execution: &Result<TaskStatus, TaskError>) -> (status: TaskStatus)
    ensures
        status@ == status_to_record(*execution),
{
    match execution {
        Ok(status) => status.clone(),
        Err(error) => TaskStatus::Error(error.description()),
    }
}

/// What the scheduler answers for `task` after a run that ended as
/// `execution`, once recording it ended as `completion`.
///
/// A run that succeeded and was recorded gives the reference of the task. A
/// failure of the store after a successful run is passed on as it came. A
/// failed run that was recorded is reported with the task's identifier. Where
/// the run failed and recording failed too, the failure of the store leads
/// and the failure of the run is kept beside it.
pub fn outcome(
    task: &Task,
    execution: Result<TaskStatus, TaskError>,
    completion: Result<(), StorageError>,
) -> (outcome: Result<TaskId, SchedulerError>)
    ensures
        is_outcome(*task, execution, completion, outcome),
{
    match execution {
        Ok(_) => match completion {
            Ok(_) => Ok(TaskId::from(task)),
            Err(fault) => Err(SchedulerError::Storage(fault)),
        },
        Err(error) => match completion {
            Ok(_) => Err(SchedulerError::Execution { task_id: task.id.clone(), execution: error }),
            Err(fault) => Err(
                SchedulerError::Unrecorded {
                    task_id: task.id.clone(),
                    storage: fault,
                    execution: error,
                },
            ),
        },
    }
}

/// Records in `storage` how the run of `task` ended and answers the caller.
///
/// The status given to the task is that of a successful run, or `Error`
/// with the description of the failure; a task that had ended before keeps
/// the status it ended in. The answer is `Ok` only for a successful run that
/// the store recorded.
pub fn conclude<S: TaskStoragePort>(
    task: &Task,
    execution: Result<TaskStatus, TaskError>,
    storage: &mut S,
) -> (outcome: Result<TaskId, SchedulerError>)
    ensures
        match outcome {
            Ok(id) => {
                &&& execution is Ok
                &&& id@ == task@.reference()
                &&& completed(
                    old(storage).records(),
                    final(storage).records(),
                    task@.reference(),
                    status_to_record(execution),
                )
            },
            Err(SchedulerError::Execution { task_id, execution: kept }) => {
                &&& execution matches Err(error) && kept@ == error@
                &&& task_id@ == task@.id
                &&& completed(
                    old(storage).records(),
                    final(storage).records(),
                    task@.reference(),
                    status_to_record(execution),
                )
            },
            Err(SchedulerError::Unrecorded { task_id, storage: fault, execution: kept }) => {
                &&& execution matches Err(error) && kept@ == error@
                &&& task_id@ == task@.id
                &&& final(storage).records() == old(storage).records()
                &&& fault.operation == StorageOperation::Complete
                &&& fault.subject@ == task@.reference()
            },
            Err(SchedulerError::Storage(fault)) => {
                &&& execution is Ok
                &&& final(storage).records() == old(storage).records()
                &&& fault.operation == StorageOperation::Complete
                &&& fault.subject@ == task@.reference()
            },
            Err(_) => false,
        },
{
    let status = recorded_status(&execution);
    let completion = storage.complete(task, status);
    outcome(task, execution, completion)
}

/// Whether `outcome` is an answer to the run of `task` that took the
/// records of the store from `before` to `after`.
///
/// An answer `Ok` is the reference of the task, which was given a
/// `Success`. After a failed run the task was given `Error` with the
/// description of the failure, unless the store failed too, and then the
/// store is as it was. A task that had ended before keeps the status it
/// ended in.
pub open spec fn is_run_outcome(
    before: Seq<Record>,
    after: Seq<Record>,
    task: TaskView,
    outcome: Result<TaskId, SchedulerError>,
) -> bool {
    match outcome {
        Ok(id) => {
            &&& id@ == task.reference()
            &&& completed_with_success(before, after, task.reference())
        },
        Err(SchedulerError::Execution { task_id, execution }) => {
            &&& task_id@ == task.id
            &&& completed(
                before,
                after,
                task.reference(),
                StatusView::Error(execution@.description()),
            )
        },
        Err(SchedulerError::Unrecorded { task_id, storage, .. }) => {
            &&& task_id@ == task.id
            &&& after == before
            &&& storage.operation == StorageOperation::Complete
            &&& storage.subject@ == task.reference()
        },
        Err(SchedulerError::Storage(storage)) => {
            &&& after == before
            &&& storage.operation == StorageOperation::Complete
            &&& storage.subject@ == task.reference()
        },
        Err(_) => false,
    }
}

/// Runs `task` with `executor`, then records in `storage` how the run ended.
pub fn execute_task<E: TaskExecutionPort, S: TaskStoragePort>(
    task: Task,
    executor: &E,
    storage: &mut S,
) -> (outcome: Result<TaskId, SchedulerError>)
    ensures
        is_run_outcome(old(storage).records(), final(storage).records(), task@, outcome),
{
    let execution = executor.execute(&task);
    conclude(&task, execution, storage)
}

/// Goes on after the attempt to store a new task, which ended as `saved`.
/// A task that the store refused is not run: the failure of the store is
/// reported with the identifier `task_id`. A task that was stored is run,
/// and the end of its run is recorded.
pub fn run_saved<E: TaskExecutionPort, S: TaskStoragePort>(
    saved: Result<Task, StorageError>,
    task_id: String,
    executor: &E,
    storage: &mut S,
) -> (outcome: Result<TaskId, SchedulerError>)
    ensures
        match saved {
            Ok(task) => is_run_outcome(
                old(storage).records(),
                final(storage).records(),
                task@,
                outcome,
            ),
            Err(fault) => {
                &&& outcome matches Err(SchedulerError::Save { task_id: named, storage: kept })
                    && named@ == task_id@ && kept@ == fault@
                &&& final(storage).records() == old(storage).records()
            },
        },
{
    match saved {
        Ok(task) => execute_task(task, executor, storage),
        Err(fault) => Err(SchedulerError::Save { task_id, storage: fault }),
    }
}

/// The answer to a question for the status of the task that `id` refers
/// to, which the store answered with `found`: the status it gave, or its
/// failure with the reference beside it.
pub fn status_answer(id: TaskId, found: Result<TaskStatus, StorageError>) -> (outcome: Result<
    TaskStatus,
    SchedulerError,
>)
    ensures
        match found {
            Ok(status) => outcome matches Ok(given) && given@ == status@,
            Err(fault) => outcome matches Err(SchedulerError::Status { id: subject, storage })
                && subject@ == id@ && storage@ == fault@,
        },
{
    match found {
        Ok(status) => Ok(status),
        Err(fault) => Err(SchedulerError::Status { id, storage: fault }),
    }
}

/// Stores the submission `input` under the identifier `id`, runs it with
/// `executor` and records in `storage` how the run ended.
///
/// A task that the store refuses is not run, and one that clashes with a
/// stored task is refused. Else the store gains one record, the task with
/// the status it ended in: `Success` where the answer is `Ok`, `Error` with
/// the description of the failure where the run failed, and `Scheduled`
/// where the store failed to record the end of the run. The records that
/// the store held before stay as they were.
pub fn schedule<E: TaskExecutionPort, S: TaskStoragePort>(
    input: TaskInput,
    id: String,
    executor: &E,
    storage: &mut S,
) -> (outcome: Result<TaskId, SchedulerError>)
    ensures
        match outcome {
            Ok(reference) => {
                &&& scheduled(old(storage).records(), final(storage).records(), input@, reference@)
                &&& final(storage).records().last().task.id == id@
            },
            Err(SchedulerError::Save { task_id, storage: fault }) => {
                &&& task_id@ == id@
                &&& final(storage).records() == old(storage).records()
                &&& fault.operation == StorageOperation::Save
                &&& fault.subject@ == input@.with_id(id@).reference()
            },
            Err(SchedulerError::Execution { task_id, execution }) => {
                &&& task_id@ == id@
                &&& added(
                    old(storage).records(),
                    final(storage).records(),
                    input@.with_id(id@),
                    StatusView::Error(execution@.description()),
                )
            },
            Err(SchedulerError::Unrecorded { task_id, storage: fault, .. }) => {
                &&& task_id@ == id@
                &&& saved(old(storage).records(), final(storage).records(), input@.with_id(id@))
                &&& fault.operation == StorageOperation::Complete
                &&& fault.subject@ == input@.with_id(id@).reference()
            },
            Err(SchedulerError::Storage(fault)) => {
                &&& saved(old(storage).records(), final(storage).records(), input@.with_id(id@))
                &&& fault.operation == StorageOperation::Complete
                &&& fault.subject@ == input@.with_id(id@).reference()
            },
            Err(SchedulerError::Status { .. }) => false,
        },
        clashes(old(storage).records(), input@.with_id(id@)) ==> outcome matches Err(
            SchedulerError::Save { .. },
        ),
{
    let ghost before = storage.records();
    let ghost new_task = input@.with_id(id@);
    let task_id = id.clone();
    let saved = storage.save(task(input, id));
    let ghost between = storage.records();
    let outcome = run_saved(saved, task_id, executor, storage);
    proof {
        let after = storage.records();
        if between != after {
            let i = if outcome is Ok {
                choose|i: int| #[trigger]
                    changed_at(between, after, new_task.reference(), i) && if between[i].status
                        is Scheduled {
                        after[i].status is Success
                    } else {
                        after[i].status == between[i].status
                    }
            } else {
                let status = StatusView::Error(outcome->Err_0->Execution_execution@.description());
                choose|i: int| #[trigger]
                    changed_at(between, after, new_task.reference(), i) && after[i].status
                        == next_status(between[i].status, status)
            };
            lemma_changed_last(before, between, after, new_task, i);
        }
    }
    outcome
}

/// The scheduler over a store, an executor and a source of identifiers.
pub struct TaskScheduler<'a, S: TaskStoragePort, E: TaskExecutionPort, G: IdGeneratorPort> {
    pub storage: &'a mut S,
    pub execution: &'a E,
    pub id_generator: &'a G,
}

impl<'a, S: TaskStoragePort, E: TaskExecutionPort, G: IdGeneratorPort> TaskScheduler<'a, S, E, G> {
    /// A scheduler that works on `storage`, runs tasks with `execution` and
    /// names them with `id_generator`.
    pub fn new(storage: &'a mut S, execution: &'a E, id_generator: &'a G) -> (scheduler:
        TaskScheduler<'a, S, E, G>)
        ensures
            *scheduler.storage == *old(storage),
            *final(scheduler.storage) == *final(storage),
            scheduler.execution == execution,
            scheduler.id_generator == id_generator,
    {
        TaskScheduler { storage, execution, id_generator }
    }
}

impl<'a, S: TaskStoragePort, E: TaskExecutionPort, G: IdGeneratorPort> TaskSchedulerPort for TaskScheduler<
    'a,
    S,
    E,
    G,
> {
    /// The records of the store that the scheduler works on.
    open spec fn records(&self) -> Seq<Record> {
        self.storage.records()
    }

    /// Names the task with a new identifier of the generator and hands it
    /// to `schedule`.
    fn schedule_task(&mut self, input_task: TaskInput) -> (outcome: Result<TaskId, SchedulerError>)
        ensures
            *final(final(self).storage) == *final(old(self).storage),
    {
        let id = self.id_generator.generate_id();
        proof {
            if input_task@.name is Some && name_taken(
                self.storage.records(),
                input_task@.name->0,
            ) {
                lemma_name_taken_clashes(self.storage.records(), input_task@.with_id(id@));
            }
        }
        schedule(input_task, id, self.execution, self.storage)
    }

    /// Asks the store.
    fn task_status(&mut self, id: TaskId) -> (outcome: Result<TaskStatus, SchedulerError>)
        ensures
            *final(final(self).storage) == *final(old(self).storage),
    {
        let subject = id.clone();
        let found = self.storage.status(id);
        status_answer(subject, found)
    }
}

} // verus!
