use tasc::model::{Task, TaskStatus};
use tasc::error::StorageFault;
use tasc::row::{
    completion_of, encode_env, insertion_of, parse_env_var, parse_pair_text, status_columns,
    status_from_rows, DbTask, RowError,
};
use tasc::text::find_char;

fn pairs(items: &[(&str, &str)]) -> im::HashMap<String, String> {
    im::HashMap::from(
        items.iter().map(|(k, v)| (k.to_string(), v.to_string())).collect::<Vec<_>>(),
    )
}

fn row(status: &str, status_log: Option<&str>, env: Option<&str>) -> DbTask {
    DbTask {
        id: "id-1".to_string(),
        name: Some("nightly".to_string()),
        command: "ls /home".to_string(),
        env: env.map(|e| e.to_string()),
        status: status.to_string(),
        status_log: status_log.map(|l| l.to_string()),
    }
}

fn task(env: Option<im::HashMap<String, String>>) -> Task {
    Task {
        id: "id-1".to_string(),
        name: Some("nightly".to_string()),
        command: "ls /home".to_string(),
        env,
    }
}

#[test]
fn environment_round_trips_through_its_written_form() {
    let env = pairs(&[("A", "1"), ("B", "2")]);
    let text = encode_env(&env);
    assert!(text == "A=1;B=2" || text == "B=2;A=1");
    assert_eq!(parse_env_var(text), env);
    assert_eq!(parse_env_var("A=1;B=2".to_string()), env);
    assert_eq!(parse_env_var("B=2;A=1".to_string()), env);
    assert_eq!(parse_env_var("B=2;A=1".to_string()), pairs(&[("B", "2"), ("A", "1")]));
}

#[test]
fn empty_environment_round_trips() {
    let env = pairs(&[]);
    assert_eq!(encode_env(&env), "");
    assert_eq!(parse_env_var(String::new()), env);
    assert_eq!(parse_env_var(String::new()).len(), 0);
}

#[test]
fn single_binding_is_written_without_separator() {
    assert_eq!(encode_env(&pairs(&[("PATH", "/bin:/usr/bin")])), "PATH=/bin:/usr/bin");
    assert_eq!(encode_env(&pairs(&[("EMPTY", "")])), "EMPTY=");
}

#[test]
fn parse_env_var_reads_each_piece() {
    assert_eq!(parse_env_var("K=a=b".to_string()), pairs(&[("K", "a=b")]));
    assert_eq!(parse_env_var("novalue".to_string()), pairs(&[("", "")]));
    assert_eq!(parse_env_var("A=1;junk;B=2".to_string()), pairs(&[("A", "1"), ("", ""), ("B", "2")]));
    assert_eq!(parse_env_var("A=1;A=2".to_string()), pairs(&[("A", "2")]));
    assert_eq!(parse_env_var("A=1;".to_string()), pairs(&[("A", "1"), ("", "")]));
    assert_eq!(parse_env_var("=v".to_string()), pairs(&[("", "v")]));
}

#[test]
fn parse_pair_text_splits_at_the_first_equals_sign() {
    assert_eq!(parse_pair_text("KEY=VAL"), ("KEY".to_string(), "VAL".to_string()));
    assert_eq!(parse_pair_text("KEY=a=b"), ("KEY".to_string(), "a=b".to_string()));
    assert_eq!(parse_pair_text("KEY="), ("KEY".to_string(), String::new()));
    assert_eq!(parse_pair_text("KEY"), (String::new(), String::new()));
    assert_eq!(parse_pair_text(""), (String::new(), String::new()));
    assert_eq!(parse_pair_text("é=ü"), ("é".to_string(), "ü".to_string()));
}

#[test]
fn find_char_gives_the_first_index_or_the_length() {
    assert_eq!(find_char("abc=d=e", '='), 3);
    assert_eq!(find_char("abc", '='), 3);
    assert_eq!(find_char("", '='), 0);
    assert_eq!(find_char("=", '='), 0);
    assert_eq!(find_char("éé=", '='), 2);
}

#[test]
fn status_columns_of_each_status() {
    assert_eq!(status_columns(&TaskStatus::Scheduled), ("SCHEDULED".to_string(), None));
    assert_eq!(
        status_columns(&TaskStatus::Success("out".to_string())),
        ("SUCCESS".to_string(), Some("out".to_string()))
    );
    assert_eq!(
        status_columns(&TaskStatus::Error("err".to_string())),
        ("ERROR".to_string(), Some("err".to_string()))
    );
}

#[test]
fn row_of_a_task() {
    assert_eq!(
        DbTask::from((&task(None), &TaskStatus::Scheduled)),
        row("SCHEDULED", None, None)
    );
    assert_eq!(
        DbTask::from((&task(Some(pairs(&[("A", "1")]))), &TaskStatus::Success("out".to_string()))),
        row("SUCCESS", Some("out"), Some("A=1"))
    );
    assert_eq!(
        DbTask::from((&task(Some(pairs(&[]))), &TaskStatus::Error("err".to_string()))),
        row("ERROR", Some("err"), Some(""))
    );
}

#[test]
fn task_of_a_row() {
    assert_eq!(
        row("SCHEDULED", None, None).try_into(),
        Ok((task(None), TaskStatus::Scheduled))
    );
    assert_eq!(
        row("SCHEDULED", Some("ignored"), Some("A=1;B=2")).try_into(),
        Ok((task(Some(pairs(&[("A", "1"), ("B", "2")]))), TaskStatus::Scheduled))
    );
    assert_eq!(
        row("SUCCESS", Some("out"), None).try_into(),
        Ok((task(None), TaskStatus::Success("out".to_string())))
    );
    assert_eq!(
        row("ERROR", Some("err"), Some("")).try_into(),
        Ok((task(Some(pairs(&[]))), TaskStatus::Error("err".to_string())))
    );
}

#[test]
fn row_without_its_status_log_is_refused() {
    let missing = row("SUCCESS", None, None).try_into().unwrap_err();
    assert_eq!(
        missing,
        RowError::MissingStatusLog { id: "id-1".to_string(), status: "SUCCESS".to_string() }
    );
    assert_eq!(
        missing.message(),
        "Task id-1 is defined in database as SUCCESS but doesn't have any status_log"
    );
    assert_eq!(
        row("ERROR", None, None).try_into(),
        Err(RowError::MissingStatusLog { id: "id-1".to_string(), status: "ERROR".to_string() })
    );
}

#[test]
fn row_with_an_unknown_status_is_refused() {
    let invalid = row("DONE", Some("out"), None).try_into().unwrap_err();
    assert_eq!(invalid, RowError::InvalidStatus("DONE".to_string()));
    assert_eq!(invalid.message(), "DONE is not a valid status");
    assert_eq!(
        row("success", Some("out"), None).try_into(),
        Err(RowError::InvalidStatus("success".to_string()))
    );
    assert_eq!(row("", None, None).try_into(), Err(RowError::InvalidStatus(String::new())));
}

#[test]
fn row_round_trips() {
    for status in [
        TaskStatus::Scheduled,
        TaskStatus::Success("file1\nfile2".to_string()),
        TaskStatus::Error("No such file".to_string()),
    ] {
        for env in [None, Some(pairs(&[])), Some(pairs(&[("A", "1"), ("B", "2"), ("C", "x=y")]))] {
            let written = task(env);
            let back = DbTask::from((&written, &status)).try_into();
            assert_eq!(back, Ok((written, status.clone())));
        }
    }
}

#[test]
fn status_from_the_rows_that_were_found() {
    assert_eq!(status_from_rows(vec![]), Err(StorageFault::NotFound));
    assert_eq!(
        status_from_rows(vec![row("SUCCESS", Some("out"), None)]),
        Ok(TaskStatus::Success("out".to_string()))
    );
    assert_eq!(
        status_from_rows(vec![row("SCHEDULED", None, None), row("SCHEDULED", None, None)]),
        Err(StorageFault::Ambiguous)
    );
    assert_eq!(
        status_from_rows(vec![row("DONE", None, None)]),
        Err(StorageFault::Backend("DONE is not a valid status".to_string()))
    );
}

#[test]
fn completion_by_the_rows_that_were_reached() {
    assert_eq!(completion_of(1, 1), Ok(()));
    assert_eq!(completion_of(0, 1), Ok(()));
    assert_eq!(completion_of(1, 0), Ok(()));
    assert_eq!(completion_of(0, 0), Err(StorageFault::NotFound));
}

#[test]
fn insertion_beside_the_rows_that_are_there() {
    assert_eq!(insertion_of(0, 0), Ok(()));
    let taken =
        Err(StorageFault::Backend("A task with the same id or name is already stored".to_string()));
    assert_eq!(insertion_of(1, 0), taken);
    assert_eq!(insertion_of(0, 1), taken);
    assert_eq!(insertion_of(2, 3), taken);
}
