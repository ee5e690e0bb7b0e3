//! What the command layer decides between reading the stored tasks and
//! writing one back: which task is meant, and what becomes of it.

use crate::clock::{lemma_text_not_empty, Timestamp};
use crate::models::{Task, TaskStatus, TaskView};
use crate::storage::{StorageError, StorageFault};
use crate::text::same_text;
use vstd::prelude::*;
use vstd::string::*;

verus! {

/// Why a command failed.
#[derive(Debug, Clone, PartialEq, Eq)]
pub enum ServiceError {
    /// No stored task has the given `id`.
    NotFound,
    /// The storage failed.
    Storage(StorageError),
}

/// The mathematical value of a [`ServiceError`].
pub enum ServiceFault {
    NotFound,
    Storage(StorageFault),
}

impl View for ServiceError {
    type V = ServiceFault;

    open spec fn view(&self) -> ServiceFault {
        match self {
            ServiceError::NotFound => ServiceFault::NotFound,
            ServiceError::Storage(e) => ServiceFault::Storage(e@),
        }
    }
}

/// What the user is told when no task has the given `id`.
pub const NOT_FOUND_MESSAGE: &'static str = "任务不存在";

/// Whether `at` is the place of the first task with the given `id`.
pub open spec fn is_first_with_id(tasks: Seq<TaskView>, id: Seq<char>, at: int) -> bool {
    &&& 0 <= at < tasks.len()
    &&& tasks[at].id == id
    &&& forall|j: int| 0 <= j < at ==> (#[trigger] tasks[j]).id != id
}

/// Whether no task has the given `id`.
pub open spec fn has_no_id(tasks: Seq<TaskView>, id: Seq<char>) -> bool {
    forall|j: int| 0 <= j < tasks.len() ==> (#[trigger] tasks[j]).id != id
}

/// The task after a status label has been applied at the instant written as
/// `stamp`. `completed` completes a task that is not completed yet and leaves
/// a completed one as it is; `cancelled` cancels; every other label makes the
/// task pending, with its completion time left in place.
pub open spec fn relabelled(task: TaskView, label: Seq<char>, stamp: Seq<char>) -> TaskView {
    if label == "completed"@ {
        if task.status == TaskStatus::Completed {
            task
        } else {
            task.completed(stamp)
        }
    } else if label == "cancelled"@ {
        task.cancelled()
    } else {
        TaskView { status: TaskStatus::Pending, ..task }
    }
}

/// The task after a full replacement of its mutable fields and a status label.
pub open spec fn revised(
    task: TaskView,
    title: Seq<char>,
    description: Seq<char>,
    quadrant: u8,
    label: Seq<char>,
    tags: Option<Seq<Seq<char>>>,
    stamp: Seq<char>,
) -> TaskView {
    relabelled(TaskView { title, description, quadrant, tags, ..task }, label, stamp)
}

/// Whether a task that a command has completed has a completion time that is
/// not empty. Nothing is asked of a task that was completed before the
/// command, or that is not completed after it.
pub open spec fn stamped_when_completed(before: TaskView, after: TaskView) -> bool {
    before.status != TaskStatus::Completed && after.status == TaskStatus::Completed
        ==> after.is_stamped()
}

/// The task after the command that completes it, given at the instant written
/// as `stamp`: a task that is completed already keeps its completion time.
pub open spec fn completed_once(task: TaskView, stamp: Seq<char>) -> TaskView {
    if task.status == TaskStatus::Completed {
        task
    } else {
        task.completed(stamp)
    }
}

/// No command changes a task's `id` or the time of its creation, and a
/// completion time, once recorded, is replaced only by a later completion.
pub proof fn lemma_commands_keep_identity(
    task: TaskView,
    title: Seq<char>,
    description: Seq<char>,
    quadrant: u8,
    label: Seq<char>,
    tags: Option<Seq<Seq<char>>>,
    stamp: Seq<char>,
)
    ensures
        ({
            let after = revised(task, title, description, quadrant, label, tags, stamp);
            &&& after.id == task.id
            &&& after.created_at == task.created_at
            &&& after.completed_at == task.completed_at || (after.completed_at == Some(stamp)
                && after.status == TaskStatus::Completed && task.status != TaskStatus::Completed)
        }),
        ({
            let after = completed_once(task, stamp);
            &&& after.id == task.id
            &&& after.created_at == task.created_at
            &&& after.status == TaskStatus::Completed
            &&& after.completed_at == task.completed_at || (after.completed_at == Some(stamp)
                && task.status != TaskStatus::Completed)
        }),
{
}

impl ServiceError {
    /// The error as the user reads it.
    pub fn message(&self) -> (text: String)
        ensures
            text@ == match self@ {
                ServiceFault::NotFound => NOT_FOUND_MESSAGE@,
                ServiceFault::Storage(fault) => fault.message(),
            },
    {
        match self {
            ServiceError::NotFound => String::from_str(NOT_FOUND_MESSAGE),
            ServiceError::Storage(e) => e.message(),
        }
    }
}

/// The place of the first task with the given `id`.
pub fn position_of(tasks: &Vec<Task>, id: &str) -> (place: Option<usize>)
    ensures
        match place {
            Some(at) => is_first_with_id(tasks.deep_view(), id@, at as int),
            None => has_no_id(tasks.deep_view(), id@),
        },
{
    let mut k: usize = 0;
    while k < tasks.len()
        invariant
            k <= tasks.len(),
            forall|j: int| 0 <= j < k ==> (#[trigger] tasks.deep_view()[j]).id != id@,
        decreases tasks.len() - k,
    {
        assert(tasks.deep_view()[k as int] == tasks[k as int]@);
        if same_text(tasks[k].id.as_str(), id) {
            return Some(k);
        }
        k += 1;
    }
    None
}

/// Takes the first task with the given `id` out of the list.
pub fn find_task(tasks: Vec<Task>, id: &str) -> (found: Option<Task>)
    ensures
        match found {
            Some(task) => exists|at: int|
                #[trigger] is_first_with_id(tasks.deep_view(), id@, at) && tasks.deep_view()[at]
                    == task@,
            None => has_no_id(tasks.deep_view(), id@),
        },
{
    match position_of(&tasks, id) {
        Some(at) => {
            assert(tasks.deep_view()[at as int] == tasks[at as int]@);
            let mut rest = tasks;
            Some(rest.remove(at))
        },
        None => None,
    }
}

/// Applies a status label to a task at the instant `now`.
pub fn relabel_at(task: &mut Task, label: &str, now: Timestamp)
    ensures
        final(task)@ == relabelled(old(task)@, label@, now.text()),
        stamped_when_completed(old(task)@, final(task)@),
{
    proof {
        lemma_text_not_empty(now);
    }
    if same_text(label, "completed") {
        match task.status {
            TaskStatus::Completed => {},
            _ => {
                task.complete_at(now.to_rfc3339());
            },
        }
    } else if same_text(label, "cancelled") {
        task.cancel();
    } else {
        task.status = TaskStatus::Pending;
    }
}

/// Replaces the title, description, quadrant and tags of the first task with
/// the given `id` and applies the status label, at the instant `now`. The
/// result is the task to write back.
pub fn update_task_at(
    now: Timestamp,
    tasks: Vec<Task>,
    id: &str,
    title: String,
    description: String,
    quadrant: u8,
    status: &str,
    tags: Option<Vec<String>>,
) -> (updated: Result<Task, ServiceError>)
    ensures
        match updated {
            Ok(task) => exists|at: int|
                #[trigger] is_first_with_id(tasks.deep_view(), id@, at) && task@ == revised(
                    tasks.deep_view()[at],
                    title@,
                    description@,
                    quadrant,
                    status@,
                    tags.deep_view(),
                    now.text(),
                ) && stamped_when_completed(tasks.deep_view()[at], task@),
            Err(e) => e@ == ServiceFault::NotFound && has_no_id(tasks.deep_view(), id@),
        },
{
    proof {
        lemma_text_not_empty(now);
    }
    match find_task(tasks, id) {
        Some(found) => {
            let mut task = found;
            task.title = title;
            task.description = description;
            task.quadrant = quadrant;
            task.tags = tags;
            relabel_at(&mut task, status, now);
            Ok(task)
        },
        None => Err(ServiceError::NotFound),
    }
}

/// Replaces the title, description, quadrant and tags of the first task with
/// the given `id` and applies the status label, now by the system clock.
/// Fails where no task has the `id`.
pub fn update_task(
    tasks: Vec<Task>,
    id: &str,
    title: String,
    description: String,
    quadrant: u8,
    status: &str,
    tags: Option<Vec<String>>,
) -> (updated: Result<Task, ServiceError>)
    ensures
        match updated {
            Ok(task) => exists|at: int, now: Timestamp|
                #[trigger] is_first_with_id(tasks.deep_view(), id@, at) && task@ == #[trigger] revised(
                    tasks.deep_view()[at],
                    title@,
                    description@,
                    quadrant,
                    status@,
                    tags.deep_view(),
                    now.text(),
                ) && stamped_when_completed(tasks.deep_view()[at], task@),
            Err(e) => e@ == ServiceFault::NotFound && has_no_id(tasks.deep_view(), id@),
        },
{
    let now = Timestamp::now();
    update_task_at(now, tasks, id, title, description, quadrant, status, tags)
}

/// Completes the first task with the given `id` at the instant `now`, unless
/// it is completed already. The result is the task to write back.
pub fn complete_task_at(now: Timestamp, tasks: Vec<Task>, id: &str) -> (completed: Result<
    Task,
    ServiceError,
>)
    ensures
        match completed {
            Ok(task) => exists|at: int|
                #[trigger] is_first_with_id(tasks.deep_view(), id@, at) && task@ == completed_once(
                    tasks.deep_view()[at],
                    now.text(),
                ) && stamped_when_completed(tasks.deep_view()[at], task@),
            Err(e) => e@ == ServiceFault::NotFound && has_no_id(tasks.deep_view(), id@),
        },
{
    proof {
        lemma_text_not_empty(now);
    }
    match find_task(tasks, id) {
        Some(found) => {
            let mut task = found;
            match task.status {
                TaskStatus::Completed => {},
                _ => {
                    task.complete_at(now.to_rfc3339());
                },
            }
            Ok(task)
        },
        None => Err(ServiceError::NotFound),
    }
}

/// Completes the first task with the given `id` now, by the system clock,
/// unless it is completed already. Fails where no task has the `id`.
pub fn complete_task(tasks: Vec<Task>, id: &str) -> (completed: Result<Task, ServiceError>)
    ensures
        match completed {
            Ok(task) => task@.status == TaskStatus::Completed && exists|at: int, now: Timestamp|
                #[trigger] is_first_with_id(tasks.deep_view(), id@, at) && task@
                    == #[trigger] completed_once(tasks.deep_view()[at], now.text())
                    && stamped_when_completed(tasks.deep_view()[at], task@),
            Err(e) => e@ == ServiceFault::NotFound && has_no_id(tasks.deep_view(), id@),
        },
{
    let now = Timestamp::now();
    complete_task_at(now, tasks, id)
}

} // verus!
