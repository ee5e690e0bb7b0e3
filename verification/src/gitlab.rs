//! Importing the issues of a GitLab project as tasks: what is asked of the
//! server, and what becomes of each issue it returns.

use crate::clock::Timestamp;
use crate::http::{bearer, bearer_header, body_or_unknown, reported_body};
use crate::ids::IdSource;
use crate::models::{Task, TaskStatus, TaskView};
use crate::text::{
    contains_text, copy_texts, has_substring, lowercase, lowercase_text, same_text, trim_trailing,
    without_trailing,
};
use vstd::prelude::*;
use vstd::string::*;

verus! {

/// An issue as the tracker reports it.
#[derive(Debug, Clone, PartialEq, Eq)]
pub struct Issue {
    pub title: String,
    pub description: Option<String>,
    /// `closed` for a closed issue; any other word for an open one.
    pub state: String,
    pub labels: Vec<String>,
}

/// The mathematical value of an [`Issue`].
pub struct IssueView {
    pub title: Seq<char>,
    pub description: Option<Seq<char>>,
    pub state: Seq<char>,
    pub labels: Seq<Seq<char>>,
}

impl View for Issue {
    type V = IssueView;

    open spec fn view(&self) -> IssueView {
        IssueView {
            title: self.title@,
            description: self.description.deep_view(),
            state: self.state@,
            labels: self.labels.deep_view(),
        }
    }
}

impl DeepView for Issue {
    type V = IssueView;

    open spec fn deep_view(&self) -> IssueView {
        self@
    }
}

/// Why an import failed.
#[derive(Debug, Clone, PartialEq, Eq)]
pub enum ImportError {
    /// The access token is empty.
    MissingToken,
    /// The address of the GitLab server is empty.
    MissingUrl,
    /// The project's identifier is empty.
    MissingProject,
    /// The server answered with a failure; the text is the body of its answer.
    Rejected(String),
    /// The request could not be sent or its answer not read, in the words of
    /// the transport.
    Transport(String),
}

/// The mathematical value of an [`ImportError`].
pub enum ImportFault {
    MissingToken,
    MissingUrl,
    MissingProject,
    Rejected(Seq<char>),
    Transport(Seq<char>),
}

impl View for ImportError {
    type V = ImportFault;

    open spec fn view(&self) -> ImportFault {
        match self {
            ImportError::MissingToken => ImportFault::MissingToken,
            ImportError::MissingUrl => ImportFault::MissingUrl,
            ImportError::MissingProject => ImportFault::MissingProject,
            ImportError::Rejected(body) => ImportFault::Rejected(body@),
            ImportError::Transport(text) => ImportFault::Transport(text@),
        }
    }
}

pub const MISSING_TOKEN_MESSAGE: &'static str = "GitLab令牌不能为空";

pub const MISSING_URL_MESSAGE: &'static str = "GitLab URL不能为空";

pub const MISSING_PROJECT_MESSAGE: &'static str = "项目ID不能为空";

pub const REJECTED_PREFIX: &'static str = "GitLab API调用失败: ";

/// The words that mark a label as important, in lower case.
pub const IMPORTANT_EN: &'static str = "important";

pub const IMPORTANT_ZH: &'static str = "重要";

/// The words that mark a label as urgent, in lower case.
pub const URGENT_EN: &'static str = "urgent";

pub const URGENT_ZH: &'static str = "紧急";

/// The word that the tracker uses for the state of a closed issue.
pub const CLOSED: &'static str = "closed";

impl ImportFault {
    /// The fault as the user reads it.
    pub open spec fn message(self) -> Seq<char> {
        match self {
            ImportFault::MissingToken => MISSING_TOKEN_MESSAGE@,
            ImportFault::MissingUrl => MISSING_URL_MESSAGE@,
            ImportFault::MissingProject => MISSING_PROJECT_MESSAGE@,
            ImportFault::Rejected(body) => REJECTED_PREFIX@ + body,
            ImportFault::Transport(text) => text,
        }
    }
}

impl ImportError {
    /// The error as the user reads it.
    pub fn message(&self) -> (text: String)
        ensures
            text@ == self@.message(),
    {
        match self {
            ImportError::MissingToken => String::from_str(MISSING_TOKEN_MESSAGE),
            ImportError::MissingUrl => String::from_str(MISSING_URL_MESSAGE),
            ImportError::MissingProject => String::from_str(MISSING_PROJECT_MESSAGE),
            ImportError::Rejected(body) => String::from_str(REJECTED_PREFIX).concat(body.as_str()),
            ImportError::Transport(text) => text.clone(),
        }
    }

    /// The error for an answer that reports a failure. `body` is the text of
    /// the answer, or `None` where it could not be read.
    pub fn rejected(body: Option<String>) -> (error: ImportError)
        ensures
            error@ == ImportFault::Rejected(reported_body(body.deep_view())),
    {
        ImportError::Rejected(body_or_unknown(body))
    }
}

/// What is sent to the server to list the issues of a project.
#[derive(Debug, Clone, PartialEq, Eq)]
pub struct ImportRequest {
    /// The address of the project's issues.
    pub url: String,
    /// The value of the `Authorization` header.
    pub authorization: String,
    /// The value of the query parameter `state`.
    pub state: &'static str,
}

/// The address of the issues of a project: the server's address without the
/// slashes at its end, then the path of the project's issues.
pub open spec fn issues_address(gitlab_url: Seq<char>, project_id: Seq<char>) -> Seq<char> {
    without_trailing(gitlab_url, '/') + "/api/v4/projects/"@ + project_id + "/issues"@
}

/// The first of the three values that is empty, if one is: the reason to
/// refuse the request.
pub open spec fn missing_input(token: Seq<char>, gitlab_url: Seq<char>, project_id: Seq<char>)
    -> Option<ImportFault> {
    if token.len() == 0 {
        Some(ImportFault::MissingToken)
    } else if gitlab_url.len() == 0 {
        Some(ImportFault::MissingUrl)
    } else if project_id.len() == 0 {
        Some(ImportFault::MissingProject)
    } else {
        None
    }
}

/// Prepares the request for every issue of a project, open or closed. An
/// empty token, address or project identifier is refused, in that order.
pub fn import_request(token: &str, gitlab_url: &str, project_id: &str) -> (request: Result<
    ImportRequest,
    ImportError,
>)
    ensures
        match request {
            Ok(r) => {
                &&& missing_input(token@, gitlab_url@, project_id@) is None
                &&& r.url@ == issues_address(gitlab_url@, project_id@)
                &&& r.authorization@ == bearer(token@)
                &&& r.state@ == "all"@
            },
            Err(e) => missing_input(token@, gitlab_url@, project_id@) == Some(e@),
        },
{
    if token.is_empty() {
        return Err(ImportError::MissingToken);
    }
    if gitlab_url.is_empty() {
        return Err(ImportError::MissingUrl);
    }
    if project_id.is_empty() {
        return Err(ImportError::MissingProject);
    }
    let authorization = bearer_header(token);
    let root = trim_trailing(gitlab_url, '/');
    let url = String::from_str(root).concat("/api/v4/projects/").concat(project_id).concat(
        "/issues",
    );
    Ok(ImportRequest { url, authorization, state: "all" })
}

/// Whether a label, written in lower case, marks its issue as important.
pub open spec fn marks_important(lower: Seq<char>) -> bool {
    has_substring(lower, IMPORTANT_EN@) || has_substring(lower, IMPORTANT_ZH@)
}

/// Whether a label, written in lower case, marks its issue as urgent.
pub open spec fn marks_urgent(lower: Seq<char>) -> bool {
    has_substring(lower, URGENT_EN@) || has_substring(lower, URGENT_ZH@)
}

/// Whether one of the labels marks the issue as important.
pub open spec fn any_important(labels: Seq<Seq<char>>) -> bool {
    exists|i: int| 0 <= i < labels.len() && marks_important(lowercase_text(#[trigger] labels[i]))
}

/// Whether one of the labels marks the issue as urgent.
pub open spec fn any_urgent(labels: Seq<Seq<char>>) -> bool {
    exists|i: int| 0 <= i < labels.len() && marks_urgent(lowercase_text(#[trigger] labels[i]))
}

/// The quadrant of a task by its importance and urgency.
pub open spec fn quadrant_of(important: bool, urgent: bool) -> u8 {
    if important && urgent {
        1
    } else if important {
        2
    } else if urgent {
        3
    } else {
        4
    }
}

/// The quadrant of an issue with the given labels.
pub open spec fn labels_quadrant(labels: Seq<Seq<char>>) -> u8 {
    quadrant_of(any_important(labels), any_urgent(labels))
}

/// The quadrant of a task by its importance and urgency.
pub fn quadrant_for(important: bool, urgent: bool) -> (quadrant: u8)
    ensures
        quadrant == quadrant_of(important, urgent),
        1 <= quadrant <= 4,
{
    if important && urgent {
        1
    } else if important {
        2
    } else if urgent {
        3
    } else {
        4
    }
}

/// What a label in lower case says of its issue: whether it is important,
/// and whether it is urgent.
pub fn label_marks(lower: &str) -> (marks: (bool, bool))
    ensures
        marks.0 == marks_important(lower@),
        marks.1 == marks_urgent(lower@),
{
    let important = contains_text(lower, IMPORTANT_EN) || contains_text(lower, IMPORTANT_ZH);
    let urgent = contains_text(lower, URGENT_EN) || contains_text(lower, URGENT_ZH);
    (important, urgent)
}

/// The quadrant of an issue with the given labels: 1 where its labels mark
/// it both important and urgent, 2 where only important, 3 where only
/// urgent, 4 where neither. Upper and lower case are not told apart.
pub fn classify_labels(labels: &Vec<String>) -> (quadrant: u8)
    ensures
        quadrant == labels_quadrant(labels.deep_view()),
        1 <= quadrant <= 4,
{
    let mut important = false;
    let mut urgent = false;
    let mut k: usize = 0;
    while k < labels.len()
        invariant
            k <= labels.len(),
            important == any_important(labels.deep_view().take(k as int)),
            urgent == any_urgent(labels.deep_view().take(k as int)),
        decreases labels.len() - k,
    {
        let lower = lowercase(labels[k].as_str());
        let marks = label_marks(lower.as_str());
        proof {
            let all = labels.deep_view();
            let before = all.take(k as int);
            let after = all.take(k + 1);
            assert(all[k as int] == labels[k as int]@);
            assert(after[k as int] == all[k as int]);
            assert forall|i: int| 0 <= i < k implies before[i] == after[i] by {}
            if any_important(after) {
                let i = choose|i: int|
                    0 <= i < after.len() && marks_important(lowercase_text(#[trigger] after[i]));
                if i < k {
                    assert(marks_important(lowercase_text(before[i])));
                }
            }
            if any_urgent(after) {
                let i = choose|i: int|
                    0 <= i < after.len() && marks_urgent(lowercase_text(#[trigger] after[i]));
                if i < k {
                    assert(marks_urgent(lowercase_text(before[i])));
                }
            }
            if any_important(before) {
                let i = choose|i: int|
                    0 <= i < before.len() && marks_important(lowercase_text(#[trigger] before[i]));
                assert(marks_important(lowercase_text(after[i])));
            }
            if any_urgent(before) {
                let i = choose|i: int|
                    0 <= i < before.len() && marks_urgent(lowercase_text(#[trigger] before[i]));
                assert(marks_urgent(lowercase_text(after[i])));
            }
        }
        important = important || marks.0;
        urgent = urgent || marks.1;
        k += 1;
    }
    assert(labels.deep_view().take(k as int) =~= labels.deep_view());
    quadrant_for(important, urgent)
}

/// The task that an issue becomes when it is imported at the instant
/// `created` under the identifier `id`: its quadrant is that of its labels,
/// its tags are its labels, a missing description is empty, and a closed
/// issue is a task completed at the instant `closed`.
pub open spec fn issue_task(issue: IssueView, id: Seq<char>, created: Timestamp, closed: Timestamp)
    -> TaskView {
    let task = TaskView::created(
        id,
        created,
        issue.title,
        match issue.description {
            Some(text) => text,
            None => Seq::empty(),
        },
        labels_quadrant(issue.labels),
        Some(issue.labels),
    );
    if issue.state == CLOSED@ {
        task.completed(closed.text())
    } else {
        task
    }
}

/// Turns an issue into a task created at the instant `created` under the
/// identifier `id` and, where the issue is closed, completed at the instant
/// `closed`, with a completion time that is not empty.
pub fn task_from_issue_at(issue: &Issue, id: String, created: Timestamp, closed: Timestamp) -> (task:
    Task)
    ensures
        task@ == issue_task(issue@, id@, created, closed),
        issue@.state == CLOSED@ ==> task@.status == TaskStatus::Completed && task@.is_stamped(),
        issue@.state != CLOSED@ ==> task@.status == TaskStatus::Pending && task@.completed_at
            is None,
{
    let quadrant = classify_labels(&issue.labels);
    let description = match &issue.description {
        Some(text) => text.clone(),
        None => String::new(),
    };
    let mut task = Task::new_at(
        id,
        created,
        issue.title.clone(),
        description,
        quadrant,
        Some(copy_texts(&issue.labels)),
    );
    if same_text(issue.state.as_str(), CLOSED) {
        task.complete_at(closed.to_rfc3339());
    }
    task
}

/// Whether `task` is what the issue becomes when imported at some instant: a
/// pending task for an open issue, and for a closed one a task completed at
/// some instant, with a completion time that is not empty.
pub open spec fn is_import_of(task: TaskView, issue: IssueView) -> bool {
    &&& exists|created: Timestamp, closed: Timestamp|
        task == #[trigger] issue_task(issue, task.id, created, closed)
    &&& issue.state == CLOSED@ ==> task.status == TaskStatus::Completed && task.is_stamped()
    &&& issue.state != CLOSED@ ==> task.status == TaskStatus::Pending && task.completed_at is None
}

/// Turns an issue into a task created now, by the system clock, under the
/// next identifier of `ids`, and completed at once where the issue is closed.
pub fn task_from_issue(ids: &mut IdSource, issue: &Issue) -> (task: Task)
    ensures
        is_import_of(task@, issue@),
        !old(ids).may_have_issued(task@.id),
        final(ids).may_have_issued(task@.id),
        forall|earlier: Seq<char>|
            old(ids).may_have_issued(earlier) ==> #[trigger] final(ids).may_have_issued(earlier),
{
    let created = Timestamp::now();
    let closed = if same_text(issue.state.as_str(), CLOSED) {
        Timestamp::now()
    } else {
        created
    };
    let id = ids.next_id(created);
    task_from_issue_at(issue, id, created, closed)
}

/// Turns the issues of a project into tasks, one for one and in their order,
/// each under an identifier of its own. The tasks are not stored.
pub fn import_issues(ids: &mut IdSource, issues: &Vec<Issue>) -> (tasks: Vec<Task>)
    ensures
        tasks.len() == issues.len(),
        forall|i: int|
            0 <= i < issues.len() ==> is_import_of(
                #[trigger] tasks.deep_view()[i],
                issues.deep_view()[i],
            ),
        forall|i: int, j: int|
            0 <= i < j < tasks.len() ==> (#[trigger] tasks.deep_view()[i]).id != (
            #[trigger] tasks.deep_view()[j]).id,
        forall|i: int|
            0 <= i < tasks.len() ==> !old(ids).may_have_issued((#[trigger] tasks.deep_view()[i]).id)
                && final(ids).may_have_issued(tasks.deep_view()[i].id),
        forall|earlier: Seq<char>|
            old(ids).may_have_issued(earlier) ==> #[trigger] final(ids).may_have_issued(earlier),
{
    let mut tasks: Vec<Task> = Vec::new();
    let mut k: usize = 0;
    while k < issues.len()
        invariant
            k <= issues.len(),
            tasks.len() == k,
            forall|i: int|
                0 <= i < k ==> is_import_of(
                    #[trigger] tasks.deep_view()[i],
                    issues.deep_view()[i],
                ),
            forall|i: int, j: int|
                0 <= i < j < k ==> (#[trigger] tasks.deep_view()[i]).id != (
                #[trigger] tasks.deep_view()[j]).id,
            forall|i: int|
                0 <= i < k ==> !old(ids).may_have_issued((#[trigger] tasks.deep_view()[i]).id)
                    && ids.may_have_issued(tasks.deep_view()[i].id),
            forall|earlier: Seq<char>|
                old(ids).may_have_issued(earlier) ==> #[trigger] ids.may_have_issued(earlier),
        decreases issues.len() - k,
    {
        let ghost source = *ids;
        let task = task_from_issue(ids, &issues[k]);
        let ghost before = tasks.deep_view();
        assert(issues.deep_view()[k as int] == issues[k as int]@);
        tasks.push(task);
        assert(tasks.deep_view() =~= before.push(task@));
        proof {
            assert forall|i: int| 0 <= i < k implies (#[trigger] tasks.deep_view()[i]).id
                != task@.id by {
                assert(source.may_have_issued(before[i].id));
            }
            assert(!old(ids).may_have_issued(task@.id)) by {
                if old(ids).may_have_issued(task@.id) {
                    assert(source.may_have_issued(task@.id));
                }
            }
        }
        k += 1;
    }
    tasks
}

} // verus!
