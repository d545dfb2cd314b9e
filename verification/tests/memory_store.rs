use tasc::error::{StorageError, StorageFault, StorageOperation};
use tasc::memory::{InMemoryStorageAdapter, StoredTask};
use tasc::model::{Task, TaskId, TaskStatus};
use tasc::ports::TaskStoragePort;

fn plain(id: &str, name: Option<&str>) -> Task {
    Task {
        id: id.to_string(),
        name: name.map(|n| n.to_string()),
        command: "ls".to_string(),
        env: None,
    }
}

fn stored(id: &str, name: Option<&str>, status: TaskStatus) -> StoredTask {
    StoredTask {
        id: id.to_string(),
        name: name.map(|n| n.to_string()),
        command: "ls".to_string(),
        env: None,
        status,
    }
}

#[test]
fn saved_task_is_scheduled() {
    let mut store = InMemoryStorageAdapter::new();
    let saved = store.save(plain("a", Some("first"))).unwrap();
    assert_eq!(saved, plain("a", Some("first")));
    assert_eq!(store.status(TaskId::Id("a".to_string())).unwrap(), TaskStatus::Scheduled);
    assert_eq!(store.status(TaskId::Name("first".to_string())).unwrap(), TaskStatus::Scheduled);
}

#[test]
fn save_refuses_a_taken_id_or_name() {
    let mut store = InMemoryStorageAdapter::new();
    store.save(plain("a", Some("first"))).unwrap();
    let same_id = store.save(plain("a", None)).unwrap_err();
    assert_eq!(
        same_id,
        StorageError {
            operation: StorageOperation::Save,
            subject: TaskId::Id("a".to_string()),
            fault: StorageFault::Backend(
                "A task with the same id or name is already stored".to_string()
            ),
        }
    );
    assert_eq!(same_id.message(), "A task with the same id or name is already stored");
    assert!(store.save(plain("b", Some("first"))).is_err());
    assert!(store.save(plain("b", Some("second"))).is_ok());
    assert!(store.save(plain("c", None)).is_ok());
    assert!(store.save(plain("d", None)).is_ok());
}

#[test]
fn name_and_id_are_separate_spaces() {
    let mut store = InMemoryStorageAdapter::new();
    store.save(plain("a", Some("b"))).unwrap();
    assert!(store.save(plain("b", Some("a"))).is_ok());
    assert!(store.status(TaskId::Id("first".to_string())).is_err());
}

#[test]
fn complete_replaces_the_status_only() {
    let mut store = InMemoryStorageAdapter::new();
    store.save(plain("a", Some("first"))).unwrap();
    store.save(plain("b", None)).unwrap();
    store.complete(&plain("a", Some("first")), TaskStatus::Success("out".to_string())).unwrap();
    assert_eq!(
        store.status(TaskId::Id("a".to_string())).unwrap(),
        TaskStatus::Success("out".to_string())
    );
    assert_eq!(store.status(TaskId::Id("b".to_string())).unwrap(), TaskStatus::Scheduled);
    store.complete(&plain("b", None), TaskStatus::Error("bad".to_string())).unwrap();
    assert_eq!(
        store.status(TaskId::Id("b".to_string())).unwrap(),
        TaskStatus::Error("bad".to_string())
    );
    assert_eq!(
        store.find_only_one(&TaskId::Name("first".to_string())).unwrap(),
        &stored("a", Some("first"), TaskStatus::Success("out".to_string()))
    );
}

#[test]
fn complete_of_an_unknown_task_is_not_found() {
    let mut store = InMemoryStorageAdapter::new();
    store.save(plain("a", None)).unwrap();
    assert_eq!(
        store.complete(&plain("z", None), TaskStatus::Success("out".to_string())),
        Err(StorageError {
            operation: StorageOperation::Complete,
            subject: TaskId::Id("z".to_string()),
            fault: StorageFault::NotFound,
        })
    );
    assert_eq!(store.status(TaskId::Id("a".to_string())).unwrap(), TaskStatus::Scheduled);
}

#[test]
fn find_only_one_tells_none_from_several() {
    let store = InMemoryStorageAdapter::with_tasks(vec![
        stored("a", Some("twin"), TaskStatus::Scheduled),
        stored("b", Some("twin"), TaskStatus::Success("x".to_string())),
        stored("c", None, TaskStatus::Error("y".to_string())),
    ]);
    assert_eq!(store.find_only_one(&TaskId::Name("twin".to_string())), Err(StorageFault::Ambiguous));
    assert_eq!(store.find_only_one(&TaskId::Name("nobody".to_string())), Err(StorageFault::NotFound));
    assert_eq!(
        store.find_only_one(&TaskId::Id("c".to_string())),
        Ok(&stored("c", None, TaskStatus::Error("y".to_string())))
    );
    assert_eq!(store.position(&TaskId::Name("twin".to_string())), 0);
    assert_eq!(store.position(&TaskId::Id("b".to_string())), 1);
    assert_eq!(store.position(&TaskId::Id("c".to_string())), 2);
    assert_eq!(store.position(&TaskId::Name("c".to_string())), 3);
    assert_eq!(StorageFault::Ambiguous.message(), "More than 1 task correspond to your selection");
    assert_eq!(StorageFault::NotFound.message(), "No task correspond to your selection");
}

#[test]
fn ambiguous_status_is_a_failure_of_the_store() {
    let mut store = InMemoryStorageAdapter::with_tasks(vec![
        stored("a", Some("twin"), TaskStatus::Scheduled),
        stored("b", Some("twin"), TaskStatus::Scheduled),
    ]);
    assert_eq!(
        store.status(TaskId::Name("twin".to_string())),
        Err(StorageError {
            operation: StorageOperation::Status,
            subject: TaskId::Name("twin".to_string()),
            fault: StorageFault::Ambiguous,
        })
    );
    store.complete(&plain("zzz", Some("twin")), TaskStatus::Success("one".to_string())).unwrap();
    assert_eq!(
        store.status(TaskId::Id("a".to_string())).unwrap(),
        TaskStatus::Success("one".to_string())
    );
    assert_eq!(store.status(TaskId::Id("b".to_string())).unwrap(), TaskStatus::Scheduled);
}

#[test]
fn stored_task_answers_to_its_id_and_its_name() {
    let task = StoredTask::from(&plain("a", Some("first")));
    assert_eq!(task, stored("a", Some("first"), TaskStatus::Scheduled));
    assert!(task.eq(&TaskId::Id("a".to_string())));
    assert!(task.eq(&TaskId::Name("first".to_string())));
    assert!(!task.eq(&TaskId::Id("first".to_string())));
    assert!(!task.eq(&TaskId::Name("a".to_string())));
    let unnamed = StoredTask::from(&plain("a", None));
    assert!(!unnamed.eq(&TaskId::Name("a".to_string())));
    assert!(unnamed.clashes_with(&plain("a", Some("x"))));
    assert!(!unnamed.clashes_with(&plain("b", None)));
    assert!(task.clashes_with(&plain("b", Some("first"))));
    assert!(!task.clashes_with(&plain("b", Some("second"))));
    assert_eq!(
        task.with_status(TaskStatus::Error("e".to_string())),
        stored("a", Some("first"), TaskStatus::Error("e".to_string()))
    );
}

#[test]
fn store_keeps_the_environment() {
    let env = im::HashMap::from(vec![
        ("A".to_string(), "1".to_string()),
        ("B".to_string(), "2".to_string()),
    ]);
    let task = Task {
        id: "a".to_string(),
        name: None,
        command: "env".to_string(),
        env: Some(env.clone()),
    };
    let mut store = InMemoryStorageAdapter::new();
    store.save(task).unwrap();
    let found = store.find_only_one(&TaskId::Id("a".to_string())).unwrap();
    assert_eq!(found.env, Some(env));
    assert_eq!(found.command, "env");
}

#[test]
fn status_changes_at_most_once() {
    let mut store = InMemoryStorageAdapter::new();
    store.save(plain("a", None)).unwrap();
    assert_eq!(store.complete(&plain("a", None), TaskStatus::Success("out".to_string())), Ok(()));
    assert_eq!(store.complete(&plain("a", None), TaskStatus::Error("late".to_string())), Ok(()));
    assert_eq!(
        store.status(TaskId::Id("a".to_string())).unwrap(),
        TaskStatus::Success("out".to_string())
    );
    assert_eq!(store.complete(&plain("a", None), TaskStatus::Scheduled), Ok(()));
    assert_eq!(
        store.status(TaskId::Id("a".to_string())).unwrap(),
        TaskStatus::Success("out".to_string())
    );
    assert_eq!(store.complete(&plain("a", None), TaskStatus::Success("other".to_string())), Ok(()));
    assert_eq!(
        store.status(TaskId::Id("a".to_string())).unwrap(),
        TaskStatus::Success("out".to_string())
    );
}

#[test]
fn failed_task_stays_failed() {
    let mut store = InMemoryStorageAdapter::new();
    store.save(plain("a", Some("first"))).unwrap();
    store.complete(&plain("a", Some("first")), TaskStatus::Error("bad".to_string())).unwrap();
    store.complete(&plain("a", Some("first")), TaskStatus::Success("out".to_string())).unwrap();
    store.complete(&plain("a", Some("first")), TaskStatus::Scheduled).unwrap();
    assert_eq!(
        store.status(TaskId::Name("first".to_string())).unwrap(),
        TaskStatus::Error("bad".to_string())
    );
}

#[test]
fn scheduled_task_may_stay_scheduled() {
    let mut store = InMemoryStorageAdapter::new();
    store.save(plain("a", None)).unwrap();
    assert_eq!(store.complete(&plain("a", None), TaskStatus::Scheduled), Ok(()));
    assert_eq!(store.status(TaskId::Id("a".to_string())).unwrap(), TaskStatus::Scheduled);
    assert_eq!(store.complete(&plain("a", None), TaskStatus::Error("bad".to_string())), Ok(()));
    assert_eq!(
        store.status(TaskId::Id("a".to_string())).unwrap(),
        TaskStatus::Error("bad".to_string())
    );
}
