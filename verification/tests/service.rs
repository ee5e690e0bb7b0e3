use quadrant_tasks::clock::Timestamp;
use quadrant_tasks::models::{Task, TaskStatus};
use quadrant_tasks::service::{
    complete_task, complete_task_at, find_task, position_of, relabel_at, update_task,
    update_task_at, ServiceError, NOT_FOUND_MESSAGE,
};
use quadrant_tasks::storage::StorageError;

const NOW: Timestamp = Timestamp { secs: 1_700_000_000, nanos: 0 };
const NOW_TEXT: &str = "2023-11-14T22:13:20+00:00";

fn task(id: &str, title: &str) -> Task {
    Task {
        id: id.to_string(),
        title: title.to_string(),
        description: "d".to_string(),
        quadrant: 1,
        created_at: "2020-01-01T00:00:00+00:00".to_string(),
        completed_at: None,
        status: TaskStatus::Pending,
        tags: Some(vec!["old".to_string()]),
    }
}

fn three() -> Vec<Task> {
    vec![task("1", "one"), task("2", "two"), task("2", "shadowed"), task("3", "three")]
}

#[test]
fn position_of_the_first_match() {
    assert_eq!(position_of(&three(), "1"), Some(0));
    assert_eq!(position_of(&three(), "2"), Some(1));
    assert_eq!(position_of(&three(), "3"), Some(3));
    assert_eq!(position_of(&three(), "4"), None);
    assert_eq!(position_of(&three(), ""), None);
    assert_eq!(position_of(&Vec::new(), "1"), None);
}

#[test]
fn find_task_takes_the_first_match() {
    assert_eq!(find_task(three(), "2"), Some(task("2", "two")));
    assert_eq!(find_task(three(), "3"), Some(task("3", "three")));
    assert_eq!(find_task(three(), "22"), None);
    assert_eq!(find_task(Vec::new(), "2"), None);
}

#[test]
fn relabel_completed_stamps_once() {
    let mut t = task("1", "one");
    relabel_at(&mut t, "completed", NOW);
    assert_eq!(t.status, TaskStatus::Completed);
    assert_eq!(t.completed_at, Some(NOW_TEXT.to_string()));
    relabel_at(&mut t, "completed", Timestamp { secs: 1_800_000_000, nanos: 0 });
    assert_eq!(t.status, TaskStatus::Completed);
    assert_eq!(t.completed_at, Some(NOW_TEXT.to_string()));
}

#[test]
fn relabel_cancelled_keeps_the_stamp() {
    let mut t = task("1", "one");
    t.complete_at("earlier".to_string());
    relabel_at(&mut t, "cancelled", NOW);
    assert_eq!(t.status, TaskStatus::Cancelled);
    assert_eq!(t.completed_at, Some("earlier".to_string()));
    relabel_at(&mut t, "cancelled", NOW);
    assert_eq!(t.status, TaskStatus::Cancelled);
}

#[test]
fn relabel_with_any_other_word_is_pending() {
    for label in ["pending", "", "Completed", "done", "CANCELLED"] {
        let mut t = task("1", "one");
        t.complete_at("earlier".to_string());
        relabel_at(&mut t, label, NOW);
        assert_eq!(t.status, TaskStatus::Pending);
        assert_eq!(t.completed_at, Some("earlier".to_string()));
    }
}

#[test]
fn relabel_completes_a_cancelled_task() {
    let mut t = task("1", "one");
    t.cancel();
    relabel_at(&mut t, "completed", NOW);
    assert_eq!(t.status, TaskStatus::Completed);
    assert_eq!(t.completed_at, Some(NOW_TEXT.to_string()));
}

#[test]
fn update_replaces_the_mutable_fields() {
    let updated = update_task_at(
        NOW,
        three(),
        "2",
        "new title".to_string(),
        "new body".to_string(),
        4,
        "cancelled",
        None,
    )
    .expect("the task exists");
    assert_eq!(updated.id, "2");
    assert_eq!(updated.title, "new title");
    assert_eq!(updated.description, "new body");
    assert_eq!(updated.quadrant, 4);
    assert_eq!(updated.tags, None);
    assert_eq!(updated.status, TaskStatus::Cancelled);
    assert_eq!(updated.completed_at, None);
    assert_eq!(updated.created_at, "2020-01-01T00:00:00+00:00");
}

#[test]
fn update_to_completed_stamps_the_task() {
    let updated = update_task_at(
        NOW,
        three(),
        "3",
        "t".to_string(),
        String::new(),
        2,
        "completed",
        Some(vec!["a".to_string(), "b".to_string()]),
    )
    .expect("the task exists");
    assert_eq!(updated.status, TaskStatus::Completed);
    assert_eq!(updated.completed_at, Some(NOW_TEXT.to_string()));
    assert_eq!(updated.tags, Some(vec!["a".to_string(), "b".to_string()]));
}

#[test]
fn update_of_a_missing_task_is_not_found() {
    let missing =
        update_task_at(NOW, three(), "9", String::new(), String::new(), 1, "completed", None);
    assert_eq!(missing, Err(ServiceError::NotFound));
    let missing = update_task(Vec::new(), "1", String::new(), String::new(), 1, "pending", None);
    assert_eq!(missing, Err(ServiceError::NotFound));
}

#[test]
fn update_with_the_clock() {
    let updated = update_task(
        three(),
        "1",
        "t".to_string(),
        "b".to_string(),
        3,
        "completed",
        None,
    )
    .expect("the task exists");
    assert_eq!(updated.title, "t");
    assert_eq!(updated.status, TaskStatus::Completed);
    assert!(updated.completed_at.map_or(false, |stamp| !stamp.is_empty()));
    let pending = update_task(three(), "1", "t".to_string(), "b".to_string(), 3, "later", None)
        .expect("the task exists");
    assert_eq!(pending.status, TaskStatus::Pending);
    assert_eq!(pending.completed_at, None);
}

#[test]
fn complete_by_id() {
    let done = complete_task_at(NOW, three(), "2").expect("the task exists");
    assert_eq!(done.title, "two");
    assert_eq!(done.status, TaskStatus::Completed);
    assert_eq!(done.completed_at, Some(NOW_TEXT.to_string()));
    assert_eq!(done.tags, Some(vec!["old".to_string()]));
}

#[test]
fn complete_by_id_does_not_restamp() {
    let mut tasks = three();
    tasks[0].complete_at("earlier".to_string());
    let done = complete_task_at(NOW, tasks, "1").expect("the task exists");
    assert_eq!(done.status, TaskStatus::Completed);
    assert_eq!(done.completed_at, Some("earlier".to_string()));
}

#[test]
fn complete_by_id_of_a_cancelled_task() {
    let mut tasks = three();
    tasks[3].cancel();
    let done = complete_task_at(NOW, tasks, "3").expect("the task exists");
    assert_eq!(done.status, TaskStatus::Completed);
    assert_eq!(done.completed_at, Some(NOW_TEXT.to_string()));
}

#[test]
fn complete_by_id_with_the_clock() {
    let done = complete_task(three(), "1").expect("the task exists");
    assert_eq!(done.status, TaskStatus::Completed);
    assert!(done.completed_at.map_or(false, |stamp| !stamp.is_empty()));
    assert_eq!(complete_task(three(), "none"), Err(ServiceError::NotFound));
}

#[test]
fn service_error_messages() {
    assert_eq!(NOT_FOUND_MESSAGE, "任务不存在");
    assert_eq!(ServiceError::NotFound.message(), "任务不存在");
    assert_eq!(
        ServiceError::Storage(StorageError::Io("disk full".to_string())).message(),
        "disk full"
    );
    assert_eq!(
        ServiceError::Storage(StorageError::Decode(0)).message(),
        "a stored task cannot be read"
    );
}
