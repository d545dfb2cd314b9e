use std::cell::Cell;

use tasc::error::{SchedulerError, StorageError, StorageFault, StorageOperation, TaskError};
use tasc::model::{Task, TaskId, TaskInput, TaskStatus};
use tasc::ports::{IdGeneratorPort, TaskExecutionPort, TaskSchedulerPort, TaskStoragePort};
use tasc::store::Records;
use tasc::service::{execute_task, TaskScheduler};

/// An executor that gives the same answer to every task and counts them.
struct FixedExecution {
    answer: Result<TaskStatus, TaskError>,
    executed: Cell<usize>,
}

impl FixedExecution {
    fn answering(answer: Result<TaskStatus, TaskError>) -> FixedExecution {
        FixedExecution { answer, executed: Cell::new(0) }
    }
}

impl TaskExecutionPort for FixedExecution {
    fn execute(&self, _task: &Task) -> Result<TaskStatus, TaskError> {
        self.executed.set(self.executed.get() + 1);
        self.answer.clone()
    }
}

/// A store that keeps nothing and answers `complete` as it was told to.
struct FixedStorage {
    completion: Result<(), StorageError>,
    saved: usize,
    completed: usize,
}

impl FixedStorage {
    fn completing(completion: Result<(), StorageError>) -> FixedStorage {
        FixedStorage { completion, saved: 0, completed: 0 }
    }
}

impl TaskStoragePort for FixedStorage {
    fn records(&self) -> Records {
        unreachable!()
    }

    fn save(&mut self, task: Task) -> Result<Task, StorageError> {
        self.saved += 1;
        Ok(task)
    }

    fn status(&mut self, id: TaskId) -> Result<TaskStatus, StorageError> {
        Err(StorageError {
            operation: StorageOperation::Status,
            subject: id,
            fault: StorageFault::NotFound,
        })
    }

    fn complete(&mut self, _task: &Task, _status: TaskStatus) -> Result<(), StorageError> {
        self.completed += 1;
        self.completion.clone()
    }
}

struct FixedId;

impl IdGeneratorPort for FixedId {
    fn generate_id(&self) -> String {
        "test_id".to_string()
    }
}

fn storage_failed() -> StorageError {
    StorageError {
        operation: StorageOperation::Complete,
        subject: TaskId::Id("test_id".to_string()),
        fault: StorageFault::Backend("Storage failed".to_string()),
    }
}

#[test]
fn test_execute_task() {
    let input_task = Task {
        id: "test_id".to_string(),
        name: None,
        command: "ls /home".to_string(),
        env: None,
    };
    let execution = FixedExecution::answering(Ok(TaskStatus::Success("Coucou".to_string())));
    let mut storage = FixedStorage::completing(Ok(()));

    assert_eq!(
        execute_task(input_task, &execution, &mut storage).unwrap(),
        TaskId::Id("test_id".to_string())
    );
    assert_eq!(execution.executed.get(), 1);
    assert_eq!(storage.completed, 1);
}

#[test]
fn test_execute_task_with_execution_failure() {
    let execution = FixedExecution::answering(Err(TaskError::CommandError(
        "Cannot move /test/inexistant, file does not exists".to_string(),
    )));
    let mut storage = FixedStorage::completing(Ok(()));
    let input_task = Task {
        id: "test_id".to_string(),
        name: None,
        command: "mv /test/inexistant".to_string(),
        env: None,
    };
    assert_eq!(
        execute_task(input_task, &execution, &mut storage).unwrap_err().message(),
        "Error during task test_id execution"
    );
    assert_eq!(execution.executed.get(), 1);
    assert_eq!(storage.completed, 1);
}

#[test]
fn test_execute_task_with_execution_failure_and_storage_failure() {
    let execution = FixedExecution::answering(Err(TaskError::CommandError(
        "Cannot move /test/inexistant, file does not exists".to_string(),
    )));
    let mut storage = FixedStorage::completing(Err(storage_failed()));
    let input_task = Task {
        id: "test_id".to_string(),
        name: None,
        command: "mv /test/inexistant".to_string(),
        env: None,
    };
    assert_eq!(
        execute_task(input_task, &execution, &mut storage).unwrap_err().message(),
        "Error executing task test_id and during status save execution"
    );
    assert_eq!(execution.executed.get(), 1);
    assert_eq!(storage.completed, 1);
}

#[test]
fn test_execute_task_with_execution_success_and_storage_failure() {
    let execution = FixedExecution::answering(Ok(TaskStatus::Success("Coucou".to_string())));
    let mut storage = FixedStorage::completing(Err(storage_failed()));
    let input_task = Task {
        id: "test_id".to_string(),
        name: None,
        command: "mv /test/inexistant".to_string(),
        env: None,
    };
    assert_eq!(
        execute_task(input_task, &execution, &mut storage).unwrap_err().message(),
        "Storage failed"
    );
    assert_eq!(execution.executed.get(), 1);
    assert_eq!(storage.completed, 1);
}

#[test]
fn test_task_scheduler_schedule_task_should_execute_just_after() {
    let execution = FixedExecution::answering(Ok(TaskStatus::Success("Coucou".to_string())));
    let mut storage = FixedStorage::completing(Ok(()));
    let ids = FixedId;
    {
        let mut service = TaskScheduler::new(&mut storage, &execution, &ids);
        let input_task = TaskInput { name: None, command: "ls /home".to_string(), env: None };
        assert_eq!(service.schedule_task(input_task).unwrap(), TaskId::Id("test_id".to_string()));
    }
    assert_eq!(execution.executed.get(), 1);
    assert_eq!(storage.saved, 1);
    assert_eq!(storage.completed, 1);
}

#[test]
fn storage_failure_after_success_is_passed_on_as_it_came() {
    let execution = FixedExecution::answering(Ok(TaskStatus::Success("Coucou".to_string())));
    let mut storage = FixedStorage::completing(Err(storage_failed()));
    let input_task = Task {
        id: "test_id".to_string(),
        name: None,
        command: "ls /home".to_string(),
        env: None,
    };
    assert_eq!(
        execute_task(input_task, &execution, &mut storage),
        Err(SchedulerError::Storage(storage_failed()))
    );
    assert_eq!(execution.executed.get(), 1);
    assert_eq!(storage.completed, 1);
}
