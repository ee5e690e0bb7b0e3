use quadrant_tasks::clock::Timestamp;
use quadrant_tasks::gitlab::{import_issues, Issue};
use quadrant_tasks::ids::IdSource;
use quadrant_tasks::models::{Task, TaskStatus};
use quadrant_tasks::service::{complete_task_at, update_task_at, ServiceError};
use quadrant_tasks::storage::{
    delete_statement, insert_statement, tasks_from_rows, update_statement, SqlValue, Statement,
    StorageError, CREATE_TABLE_SQL, SELECT_ALL_SQL,
};
use rusqlite::types::{Value, ValueRef};
use rusqlite::Connection;

fn open() -> Connection {
    let conn = Connection::open_in_memory().expect("an in-memory database opens");
    conn.execute(CREATE_TABLE_SQL, []).expect("the table is created");
    conn
}

fn bound(value: &SqlValue) -> Value {
    match value {
        SqlValue::Null => Value::Null,
        SqlValue::Integer(n) => Value::Integer(*n),
        SqlValue::Text(text) => Value::Text(text.clone()),
        SqlValue::Other => Value::Null,
    }
}

fn cell(value: ValueRef<'_>) -> SqlValue {
    match value {
        ValueRef::Null => SqlValue::Null,
        ValueRef::Integer(n) => SqlValue::Integer(n),
        ValueRef::Text(bytes) => match std::str::from_utf8(bytes) {
            Ok(text) => SqlValue::Text(text.to_string()),
            Err(_) => SqlValue::Other,
        },
        _ => SqlValue::Other,
    }
}

fn run(conn: &Connection, statement: &Statement) -> Result<usize, StorageError> {
    conn.execute(statement.sql, rusqlite::params_from_iter(statement.params.iter().map(bound)))
        .map_err(|e| {
            let code = match &e {
                rusqlite::Error::SqliteFailure(failure, _) => Some(failure.extended_code),
                _ => None,
            };
            StorageError::from_failure(code, e.to_string())
        })
}

fn rows(conn: &Connection) -> Vec<Vec<SqlValue>> {
    let mut statement = conn.prepare(SELECT_ALL_SQL).expect("the query is prepared");
    let width = statement.column_count();
    let mut found = statement.query([]).expect("the query runs");
    let mut out = Vec::new();
    while let Some(row) = found.next().expect("the next row is read") {
        let mut cells = Vec::new();
        for column in 0..width {
            cells.push(cell(row.get_ref(column).expect("the column exists")));
        }
        out.push(cells);
    }
    out
}

fn list_all(conn: &Connection) -> Result<Vec<Task>, StorageError> {
    tasks_from_rows(&rows(conn))
}

fn task(secs: u64, title: &str, tags: Option<Vec<String>>) -> Task {
    Task::new_at(
        secs.to_string(),
        Timestamp { secs, nanos: 0 },
        title.to_string(),
        format!("about {}", title),
        1,
        tags,
    )
}

#[test]
fn table_has_eight_columns_in_order() {
    let conn = open();
    let statement = conn.prepare(SELECT_ALL_SQL).expect("the query is prepared");
    assert_eq!(
        statement.column_names(),
        vec![
            "id",
            "title",
            "description",
            "quadrant",
            "created_at",
            "completed_at",
            "status",
            "tags"
        ]
    );
}

#[test]
fn creating_the_table_twice_is_harmless() {
    let conn = open();
    run(&conn, &insert_statement(&task(1, "one", None))).expect("the row is inserted");
    conn.execute(CREATE_TABLE_SQL, []).expect("the table exists already");
    assert_eq!(list_all(&conn).expect("rows are read").len(), 1);
}

#[test]
fn inserted_task_is_listed_as_it_was_created() {
    let conn = open();
    let mut ids = IdSource::new();
    let created = Task::new(
        &mut ids,
        "Plan".to_string(),
        "Next week".to_string(),
        2,
        Some(vec!["home".to_string(), "重要".to_string()]),
    );
    assert_eq!(run(&conn, &insert_statement(&created)), Ok(1));
    let listed = list_all(&conn).expect("rows are read");
    assert_eq!(listed.len(), 1);
    assert_eq!(listed[0], created);
    assert_eq!(listed[0].title, "Plan");
    assert_eq!(listed[0].description, "Next week");
    assert_eq!(listed[0].quadrant, 2);
    assert_eq!(listed[0].tags, Some(vec!["home".to_string(), "重要".to_string()]));
    assert_eq!(listed[0].status, TaskStatus::Pending);
    assert_eq!(listed[0].completed_at, None);
}

#[test]
fn inserted_task_with_an_empty_tag_list_is_listed_without_tags() {
    let conn = open();
    run(&conn, &insert_statement(&task(1, "one", Some(Vec::new())))).expect("inserted");
    let listed = list_all(&conn).expect("rows are read");
    assert_eq!(listed[0].tags, None);
    assert_eq!(listed[0].title, "one");
}

#[test]
fn completed_task_reloads_completed() {
    let conn = open();
    let mut t = task(1_700_000_000, "one", None);
    run(&conn, &insert_statement(&t)).expect("inserted");
    t.complete();
    assert_eq!(run(&conn, &update_statement(&t)), Ok(1));
    let listed = list_all(&conn).expect("rows are read");
    assert_eq!(listed.len(), 1);
    assert_eq!(listed[0].status, TaskStatus::Completed);
    let stamp = listed[0].completed_at.clone().expect("the completion time is stored");
    assert!(!stamp.is_empty());
    assert!(stamp.as_str() >= listed[0].created_at.as_str());
    assert_eq!(listed[0], t);
}

#[test]
fn cancelled_task_reloads_cancelled() {
    let conn = open();
    let mut pending = task(1, "one", None);
    let mut done = task(2, "two", None);
    done.complete_at("2024-05-06T07:08:09+00:00".to_string());
    run(&conn, &insert_statement(&pending)).expect("inserted");
    run(&conn, &insert_statement(&done)).expect("inserted");
    pending.cancel();
    done.cancel();
    run(&conn, &update_statement(&pending)).expect("updated");
    run(&conn, &update_statement(&done)).expect("updated");
    let listed = list_all(&conn).expect("rows are read");
    assert_eq!(listed.len(), 2);
    assert_eq!(listed[0].status, TaskStatus::Cancelled);
    assert_eq!(listed[0].completed_at, None);
    assert_eq!(listed[1].status, TaskStatus::Cancelled);
    assert_eq!(listed[1].completed_at, Some("2024-05-06T07:08:09+00:00".to_string()));
}

#[test]
fn update_of_a_missing_id_changes_nothing() {
    let conn = open();
    run(&conn, &insert_statement(&task(1, "one", None))).expect("inserted");
    let before = rows(&conn);
    let stranger = task(2, "two", Some(vec!["x".to_string()]));
    assert_eq!(run(&conn, &update_statement(&stranger)), Ok(0));
    assert_eq!(rows(&conn), before);
}

#[test]
fn update_overwrites_the_mutable_columns_only() {
    let conn = open();
    let stored = task(1, "one", Some(vec!["a".to_string()]));
    run(&conn, &insert_statement(&stored)).expect("inserted");
    let mut changed = stored.clone();
    changed.title = "uno".to_string();
    changed.description = String::new();
    changed.quadrant = 4;
    changed.tags = None;
    changed.created_at = "ignored".to_string();
    changed.complete_at("2024-05-06T07:08:09+00:00".to_string());
    assert_eq!(run(&conn, &update_statement(&changed)), Ok(1));
    let listed = list_all(&conn).expect("rows are read");
    assert_eq!(listed.len(), 1);
    assert_eq!(listed[0].title, "uno");
    assert_eq!(listed[0].description, "");
    assert_eq!(listed[0].quadrant, 4);
    assert_eq!(listed[0].tags, None);
    assert_eq!(listed[0].status, TaskStatus::Completed);
    assert_eq!(listed[0].completed_at, Some("2024-05-06T07:08:09+00:00".to_string()));
    assert_eq!(listed[0].created_at, stored.created_at);
    assert_eq!(listed[0].id, stored.id);
}

#[test]
fn tags_reload_in_order() {
    let conn = open();
    let tagged = task(1, "one", Some(vec!["a".to_string(), "b".to_string()]));
    let bare = task(2, "two", None);
    run(&conn, &insert_statement(&tagged)).expect("inserted");
    run(&conn, &insert_statement(&bare)).expect("inserted");
    let listed = list_all(&conn).expect("rows are read");
    assert_eq!(listed[0].tags, Some(vec!["a".to_string(), "b".to_string()]));
    assert_eq!(listed[1].tags, None);
}

#[test]
fn row_with_a_bogus_status_reloads_pending() {
    let conn = open();
    conn.execute(
        "INSERT INTO tasks VALUES ('7', 't', 'd', 1, '2024-01-01T00:00:00+00:00', NULL, 'bogus', '')",
        [],
    )
    .expect("the row is inserted by hand");
    let listed = list_all(&conn).expect("rows are read");
    assert_eq!(listed.len(), 1);
    assert_eq!(listed[0].status, TaskStatus::Pending);
    assert_eq!(listed[0].id, "7");
    assert_eq!(listed[0].tags, None);
}

#[test]
fn row_with_malformed_tags_fails_the_listing() {
    let conn = open();
    conn.execute(
        "INSERT INTO tasks VALUES ('1', 't', 'd', 1, '2024-01-01T00:00:00+00:00', NULL, 'pending', 'not json')",
        [],
    )
    .expect("the row is inserted by hand");
    assert_eq!(list_all(&conn), Err(StorageError::Decode(7)));
}

#[test]
fn tasks_created_in_a_burst_are_all_stored() {
    let conn = open();
    let mut ids = IdSource::new();
    for n in 0..20 {
        let created = Task::new(&mut ids, format!("task {}", n), String::new(), 1, None);
        assert_eq!(run(&conn, &insert_statement(&created)), Ok(1));
    }
    assert_eq!(list_all(&conn).expect("rows are read").len(), 20);
}

#[test]
fn imported_issues_are_all_stored() {
    let conn = open();
    let mut ids = IdSource::new();
    let issue = |state: &str| Issue {
        title: "t".to_string(),
        description: None,
        state: state.to_string(),
        labels: vec!["urgent".to_string()],
    };
    let tasks = import_issues(&mut ids, &vec![issue("opened"), issue("closed"), issue("opened")]);
    for imported in &tasks {
        assert_eq!(run(&conn, &insert_statement(imported)), Ok(1));
    }
    let listed = list_all(&conn).expect("rows are read");
    assert_eq!(listed, tasks);
    assert_eq!(listed[1].status, TaskStatus::Completed);
    assert!(listed[1].completed_at.as_ref().map_or(false, |stamp| !stamp.is_empty()));
}

#[test]
fn row_without_tags_column_value_is_refused() {
    let conn = open();
    conn.execute(
        "INSERT INTO tasks (id, title, quadrant, created_at, status) VALUES ('7', 't', 1, 'c', 'pending')",
        [],
    )
    .expect("the row is inserted by hand");
    assert_eq!(list_all(&conn), Err(StorageError::Decode(7)));
}

#[test]
fn delete_removes_the_row_and_repeats_quietly() {
    let conn = open();
    run(&conn, &insert_statement(&task(1, "one", None))).expect("inserted");
    run(&conn, &insert_statement(&task(2, "two", None))).expect("inserted");
    assert_eq!(run(&conn, &delete_statement("1")), Ok(1));
    let listed = list_all(&conn).expect("rows are read");
    assert_eq!(listed.len(), 1);
    assert_eq!(listed[0].id, "2");
    let before = rows(&conn);
    assert_eq!(run(&conn, &delete_statement("1")), Ok(0));
    assert_eq!(rows(&conn), before);
}

#[test]
fn delete_of_an_unknown_id_is_quiet() {
    let conn = open();
    assert_eq!(run(&conn, &delete_statement("nobody")), Ok(0));
    assert_eq!(list_all(&conn), Ok(Vec::new()));
}

#[test]
fn second_insert_of_an_id_is_a_conflict() {
    let conn = open();
    run(&conn, &insert_statement(&task(1, "one", None))).expect("inserted");
    let before = rows(&conn);
    match run(&conn, &insert_statement(&task(1, "again", None))) {
        Err(StorageError::Conflict(said)) => assert!(said.contains("tasks.id")),
        other => panic!("expected a conflict, got {:?}", other),
    }
    assert_eq!(rows(&conn), before);
}

#[test]
fn failure_without_a_constraint_is_an_io_error() {
    let conn = Connection::open_in_memory().expect("an in-memory database opens");
    match run(&conn, &insert_statement(&task(1, "one", None))) {
        Err(StorageError::Io(said)) => assert!(said.contains("no such table")),
        other => panic!("expected an i/o error, got {:?}", other),
    }
}

#[test]
fn update_command_reads_revises_and_writes_back() {
    let conn = open();
    run(&conn, &insert_statement(&task(1, "one", None))).expect("inserted");
    run(&conn, &insert_statement(&task(2, "two", None))).expect("inserted");
    let now = Timestamp { secs: 1_700_000_000, nanos: 0 };
    let revised = update_task_at(
        now,
        list_all(&conn).expect("rows are read"),
        "2",
        "deux".to_string(),
        "changed".to_string(),
        3,
        "completed",
        Some(vec!["t".to_string()]),
    )
    .expect("the task exists");
    assert_eq!(run(&conn, &update_statement(&revised)), Ok(1));
    let listed = list_all(&conn).expect("rows are read");
    assert_eq!(listed[0].title, "one");
    assert_eq!(listed[0].status, TaskStatus::Pending);
    assert_eq!(listed[1].title, "deux");
    assert_eq!(listed[1].description, "changed");
    assert_eq!(listed[1].quadrant, 3);
    assert_eq!(listed[1].status, TaskStatus::Completed);
    assert_eq!(listed[1].completed_at, Some("2023-11-14T22:13:20+00:00".to_string()));
    assert_eq!(listed[1].tags, Some(vec!["t".to_string()]));
}

#[test]
fn commands_on_a_missing_id_report_not_found() {
    let conn = open();
    run(&conn, &insert_statement(&task(1, "one", None))).expect("inserted");
    let now = Timestamp { secs: 5, nanos: 0 };
    let before = rows(&conn);
    assert_eq!(
        complete_task_at(now, list_all(&conn).expect("rows are read"), "9"),
        Err(ServiceError::NotFound)
    );
    assert_eq!(
        update_task_at(
            now,
            list_all(&conn).expect("rows are read"),
            "9",
            String::new(),
            String::new(),
            1,
            "pending",
            None
        ),
        Err(ServiceError::NotFound)
    );
    assert_eq!(rows(&conn), before);
}
