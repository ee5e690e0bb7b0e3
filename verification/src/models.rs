//! The task entity and its lifecycle transitions.

use crate::clock::{decimal_digits, Timestamp};
use crate::ids::{next_number, IdSource};
use vstd::prelude::*;

verus! {

/// Where a task stands in its lifecycle.
#[derive(Debug, Clone, Copy, PartialEq, Eq, Structural)]
pub enum TaskStatus {
    Pending,
    Completed,
    Cancelled,
}

/// A unit of work, filed under one of the four quadrants.
#[derive(Debug, Clone, PartialEq, Eq)]
pub struct Task {
    pub id: String,
    pub title: String,
    pub description: String,
    /// 1 = important and urgent, 2 = important only, 3 = urgent only, 4 = neither.
    pub quadrant: u8,
    pub created_at: String,
    pub completed_at: Option<String>,
    pub status: TaskStatus,
    pub tags: Option<Vec<String>>,
}

/// The mathematical value of a [`Task`]: every text as a sequence of characters.
pub struct TaskView {
    pub id: Seq<char>,
    pub title: Seq<char>,
    pub description: Seq<char>,
    pub quadrant: u8,
    pub created_at: Seq<char>,
    pub completed_at: Option<Seq<char>>,
    pub status: TaskStatus,
    pub tags: Option<Seq<Seq<char>>>,
}

impl View for Task {
    type V = TaskView;

    open spec fn view(&self) -> TaskView {
        TaskView {
            id: self.id@,
            title: self.title@,
            description: self.description@,
            quadrant: self.quadrant,
            created_at: self.created_at@,
            completed_at: self.completed_at.deep_view(),
            status: self.status,
            tags: self.tags.deep_view(),
        }
    }
}

impl DeepView for Task {
    type V = TaskView;

    open spec fn deep_view(&self) -> TaskView {
        self@
    }
}

impl TaskView {
    /// The task that is created at the instant `now` under the identifier
    /// `id` from the four values a caller supplies: pending, never completed.
    pub open spec fn created(
        id: Seq<char>,
        now: Timestamp,
        title: Seq<char>,
        description: Seq<char>,
        quadrant: u8,
        tags: Option<Seq<Seq<char>>>,
    ) -> TaskView {
        TaskView {
            id,
            title,
            description,
            quadrant,
            created_at: now.text(),
            completed_at: None,
            status: TaskStatus::Pending,
            tags,
        }
    }

    /// Whether the task has a completion time that is not empty.
    pub open spec fn is_stamped(self) -> bool {
        self.completed_at matches Some(stamp) && stamp.len() > 0
    }

    /// The task after it has been completed at the instant written as `stamp`.
    pub open spec fn completed(self, stamp: Seq<char>) -> TaskView {
        TaskView { status: TaskStatus::Completed, completed_at: Some(stamp), ..self }
    }

    /// The task after it has been cancelled.
    pub open spec fn cancelled(self) -> TaskView {
        TaskView { status: TaskStatus::Cancelled, ..self }
    }
}

impl Task {
    /// A pending task created now, by the system clock, under the next
    /// identifier of `ids`: the clock's whole seconds in decimal where no
    /// identifier of `ids` has reached them, else the number after the last
    /// one. The identifier differs from every one that `ids` has issued
    /// before.
    pub fn new(
        ids: &mut IdSource,
        title: String,
        description: String,
        quadrant: u8,
        tags: Option<Vec<String>>,
    ) -> (task: Task)
        ensures
            exists|now: Timestamp|
                {
                    &&& final(ids).issued() == Some(
                        next_number(old(ids).issued(), now.secs as nat),
                    )
                    &&& task@ == #[trigger] TaskView::created(
                        decimal_digits(next_number(old(ids).issued(), now.secs as nat)),
                        now,
                        title@,
                        description@,
                        quadrant,
                        tags.deep_view(),
                    )
                },
            !old(ids).may_have_issued(task@.id),
            final(ids).may_have_issued(task@.id),
            forall|earlier: Seq<char>|
                old(ids).may_have_issued(earlier) ==> #[trigger] final(ids).may_have_issued(earlier),
    {
        let now = Timestamp::now();
        let id = ids.next_id(now);
        Task::new_at(id, now, title, description, quadrant, tags)
    }

    /// A pending task created at the instant `now` under the identifier `id`.
    pub fn new_at(
        id: String,
        now: Timestamp,
        title: String,
        description: String,
        quadrant: u8,
        tags: Option<Vec<String>>,
    ) -> (task: Task)
        ensures
            task@ == TaskView::created(
                id@,
                now,
                title@,
                description@,
                quadrant,
                tags.deep_view(),
            ),
    {
        Task {
            id,
            title,
            description,
            quadrant,
            created_at: now.to_rfc3339(),
            completed_at: None,
            status: TaskStatus::Pending,
            tags,
        }
    }

    /// Marks the task completed now, by the system clock. A task that was
    /// completed before gets a new completion time.
    pub fn complete(&mut self)
        ensures
            exists|now: Timestamp| final(self)@ == old(self)@.completed(now.text()),
            final(self)@.is_stamped(),
    {
        let now = Timestamp::now();
        let stamp = now.to_rfc3339();
        self.complete_at(stamp);
    }

    /// Marks the task completed and records `stamp` as its completion time,
    /// replacing any earlier completion time.
    pub fn complete_at(&mut self, stamp: String)
        ensures
            final(self)@ == old(self)@.completed(stamp@),
    {
        self.status = TaskStatus::Completed;
        self.completed_at = Some(stamp);
    }

    /// Marks the task cancelled. A recorded completion time stays as it is.
    pub fn cancel(&mut self)
        ensures
            final(self)@ == old(self)@.cancelled(),
    {
        self.status = TaskStatus::Cancelled;
    }
}

} // verus!
