//! The `tasks` table: its statements, and the row that stands for a task.
//!
//! Nothing here touches a database. A caller runs the statements on its own
//! connection and hands back the cells it read or the failure it met.

use crate::codec::{
    decode_tags, encode_tags, status_from_label, status_label, status_of_text, status_text,
    tags_of_text, tags_text, MalformedTags,
};
use crate::models::{Task, TaskView};
use vstd::prelude::*;
use vstd::string::*;

verus! {

/// Creates the table unless it exists. Its columns, in order: `id`, `title`,
/// `description`, `quadrant`, `created_at`, `completed_at`, `status`, `tags`.
pub const CREATE_TABLE_SQL: &'static str =
    "CREATE TABLE IF NOT EXISTS tasks (id TEXT PRIMARY KEY, title TEXT NOT NULL, description TEXT, quadrant INTEGER NOT NULL, created_at TEXT NOT NULL, completed_at TEXT, status TEXT NOT NULL, tags TEXT)";

/// Adds one row; its parameters are the row's cells in column order.
pub const INSERT_SQL: &'static str =
    "INSERT INTO tasks (id, title, description, quadrant, created_at, completed_at, status, tags) VALUES (?1, ?2, ?3, ?4, ?5, ?6, ?7, ?8)";

/// Reads every row, each with its cells in column order.
pub const SELECT_ALL_SQL: &'static str = "SELECT * FROM tasks";

/// Overwrites the mutable columns of the row whose `id` is the last parameter.
pub const UPDATE_SQL: &'static str =
    "UPDATE tasks SET title = ?1, description = ?2, quadrant = ?3, completed_at = ?4, status = ?5, tags = ?6 WHERE id = ?7";

/// Removes the row whose `id` is the one parameter.
pub const DELETE_SQL: &'static str = "DELETE FROM tasks WHERE id = ?1";

/// One cell of a row, or one parameter of a statement.
#[derive(Debug, Clone, PartialEq, Eq)]
pub enum SqlValue {
    Null,
    Integer(i64),
    Text(String),
    /// A cell of any other kind; no column of the table accepts one.
    Other,
}

/// The mathematical value of a [`SqlValue`].
pub enum Cell {
    Null,
    Integer(i64),
    Text(Seq<char>),
    Other,
}

impl View for SqlValue {
    type V = Cell;

    open spec fn view(&self) -> Cell {
        match self {
            SqlValue::Null => Cell::Null,
            SqlValue::Integer(n) => Cell::Integer(*n),
            SqlValue::Text(text) => Cell::Text(text@),
            SqlValue::Other => Cell::Other,
        }
    }
}

impl DeepView for SqlValue {
    type V = Cell;

    open spec fn deep_view(&self) -> Cell {
        self@
    }
}

/// A statement with the values bound to its numbered parameters, first to last.
#[derive(Debug, Clone, PartialEq, Eq)]
pub struct Statement {
    pub sql: &'static str,
    pub params: Vec<SqlValue>,
}

/// Why a storage operation failed.
#[derive(Debug, Clone, PartialEq, Eq)]
pub enum StorageError {
    /// A row with the same `id` exists already; the text is the database's own.
    Conflict(String),
    /// Any other failure of the database, in its own words.
    Io(String),
    /// A row whose cell in the given column cannot be read as that column.
    Decode(usize),
}

/// The mathematical value of a [`StorageError`].
pub enum StorageFault {
    Conflict(Seq<char>),
    Io(Seq<char>),
    Decode(usize),
}

impl View for StorageError {
    type V = StorageFault;

    open spec fn view(&self) -> StorageFault {
        match self {
            StorageError::Conflict(text) => StorageFault::Conflict(text@),
            StorageError::Io(text) => StorageFault::Io(text@),
            StorageError::Decode(column) => StorageFault::Decode(*column),
        }
    }
}

/// The cell that holds an optional text: `NULL` where there is none.
pub open spec fn optional_text_cell(text: Option<Seq<char>>) -> Cell {
    match text {
        Some(t) => Cell::Text(t),
        None => Cell::Null,
    }
}

/// The row that stands for a task, cell by cell in column order.
pub open spec fn row_cells(task: TaskView) -> Seq<Cell> {
    seq![
        Cell::Text(task.id),
        Cell::Text(task.title),
        Cell::Text(task.description),
        Cell::Integer(task.quadrant as i64),
        Cell::Text(task.created_at),
        optional_text_cell(task.completed_at),
        Cell::Text(status_text(task.status)),
        Cell::Text(tags_text(task.tags)),
    ]
}

/// The parameters of the update: the six mutable columns, then the `id` that
/// selects the row.
pub open spec fn update_params(task: TaskView) -> Seq<Cell> {
    seq![
        Cell::Text(task.title),
        Cell::Text(task.description),
        Cell::Integer(task.quadrant as i64),
        optional_text_cell(task.completed_at),
        Cell::Text(status_text(task.status)),
        Cell::Text(tags_text(task.tags)),
        Cell::Text(task.id),
    ]
}

/// Whether the row has a cell in `column` that can be read as that column:
/// a small integer for `quadrant`, a text or `NULL` for `completed_at`, a
/// text that is well-formed for `tags`, a text for every other column.
pub open spec fn column_fits(cells: Seq<Cell>, column: int) -> bool {
    &&& 0 <= column < cells.len()
    &&& if column == 3 {
        cells[column] matches Cell::Integer(n) && 0 <= n <= u8::MAX
    } else if column == 5 {
        cells[column] is Null || cells[column] is Text
    } else if column == 7 {
        cells[column] matches Cell::Text(text) && tags_of_text(text) is Ok
    } else {
        cells[column] is Text
    }
}

/// The first column that cannot be read, in the order in which a row is read:
/// `status`, `tags`, then the others from `id` to `completed_at`.
pub open spec fn misfit(cells: Seq<Cell>) -> Option<usize> {
    if !column_fits(cells, 6) {
        Some(6usize)
    } else if !column_fits(cells, 7) {
        Some(7usize)
    } else if !column_fits(cells, 0) {
        Some(0usize)
    } else if !column_fits(cells, 1) {
        Some(1usize)
    } else if !column_fits(cells, 2) {
        Some(2usize)
    } else if !column_fits(cells, 3) {
        Some(3usize)
    } else if !column_fits(cells, 4) {
        Some(4usize)
    } else if !column_fits(cells, 5) {
        Some(5usize)
    } else {
        None
    }
}

/// The text in a cell; the empty text for a cell that holds none.
pub open spec fn cell_text(cell: Cell) -> Seq<char> {
    match cell {
        Cell::Text(t) => t,
        _ => Seq::empty(),
    }
}

/// The task that a row stands for, or the column at which reading it fails.
pub open spec fn row_task(cells: Seq<Cell>) -> Result<TaskView, StorageFault> {
    match misfit(cells) {
        Some(column) => Err(StorageFault::Decode(column)),
        None => Ok(
            TaskView {
                id: cell_text(cells[0]),
                title: cell_text(cells[1]),
                description: cell_text(cells[2]),
                quadrant: match cells[3] {
                    Cell::Integer(n) => n as u8,
                    _ => 0u8,
                },
                created_at: cell_text(cells[4]),
                completed_at: match cells[5] {
                    Cell::Text(t) => Some(t),
                    _ => None,
                },
                status: status_of_text(cell_text(cells[6])),
                tags: match tags_of_text(cell_text(cells[7])) {
                    Ok(tags) => tags,
                    Err(_) => None,
                },
            },
        ),
    }
}

/// The primary result code that SQLite gives to a violated constraint.
pub const SQLITE_CONSTRAINT: i32 = 19;

/// Whether an extended SQLite result code reports a violated constraint: its
/// low eight bits are the primary code.
pub open spec fn is_constraint_code(code: Option<i32>) -> bool {
    code matches Some(c) && c >= 0 && c % 256 == SQLITE_CONSTRAINT
}

/// What the user is told of a row that cannot be read.
pub const DECODE_MESSAGE: &'static str = "a stored task cannot be read";

impl StorageFault {
    /// The fault as the user reads it: the database's own words, or a fixed
    /// sentence for a row that cannot be read.
    pub open spec fn message(self) -> Seq<char> {
        match self {
            StorageFault::Conflict(text) => text,
            StorageFault::Io(text) => text,
            StorageFault::Decode(_) => DECODE_MESSAGE@,
        }
    }
}

impl StorageError {
    /// The error as the user reads it.
    pub fn message(&self) -> (text: String)
        ensures
            text@ == self@.message(),
    {
        match self {
            StorageError::Conflict(text) => text.clone(),
            StorageError::Io(text) => text.clone(),
            StorageError::Decode(_) => String::from_str(DECODE_MESSAGE),
        }
    }

    /// Classifies a failed write from the extended result code that SQLite
    /// gave, if it gave one, and the database's message.
    pub fn from_failure(code: Option<i32>, message: String) -> (error: StorageError)
        ensures
            is_constraint_code(code) ==> error@ == StorageFault::Conflict(message@),
            !is_constraint_code(code) ==> error@ == StorageFault::Io(message@),
    {
        match code {
            Some(c) => {
                if c >= 0 && c % 256 == SQLITE_CONSTRAINT {
                    StorageError::Conflict(message)
                } else {
                    StorageError::Io(message)
                }
            },
            None => StorageError::Io(message),
        }
    }
}

fn optional_text_value(text: &Option<String>) -> (value: SqlValue)
    ensures
        value@ == optional_text_cell(text.deep_view()),
{
    match text {
        Some(t) => SqlValue::Text(t.clone()),
        None => SqlValue::Null,
    }
}

/// The statement that stores `task` as a new row.
pub fn insert_statement(task: &Task) -> (statement: Statement)
    ensures
        statement.sql@ == INSERT_SQL@,
        statement.params.deep_view() == row_cells(task@),
{
    let mut params: Vec<SqlValue> = Vec::new();
    params.push(SqlValue::Text(task.id.clone()));
    params.push(SqlValue::Text(task.title.clone()));
    params.push(SqlValue::Text(task.description.clone()));
    params.push(SqlValue::Integer(task.quadrant as i64));
    params.push(SqlValue::Text(task.created_at.clone()));
    params.push(optional_text_value(&task.completed_at));
    params.push(SqlValue::Text(String::from_str(status_label(task.status))));
    params.push(SqlValue::Text(encode_tags(&task.tags)));
    assert(params.deep_view() =~= row_cells(task@));
    Statement { sql: INSERT_SQL, params }
}

/// The statement that overwrites the stored row of `task` with its current
/// title, description, quadrant, completion time, status and tags. Where no
/// row has the task's `id` the statement changes nothing.
pub fn update_statement(task: &Task) -> (statement: Statement)
    ensures
        statement.sql@ == UPDATE_SQL@,
        statement.params.deep_view() == update_params(task@),
{
    let mut params: Vec<SqlValue> = Vec::new();
    params.push(SqlValue::Text(task.title.clone()));
    params.push(SqlValue::Text(task.description.clone()));
    params.push(SqlValue::Integer(task.quadrant as i64));
    params.push(optional_text_value(&task.completed_at));
    params.push(SqlValue::Text(String::from_str(status_label(task.status))));
    params.push(SqlValue::Text(encode_tags(&task.tags)));
    params.push(SqlValue::Text(task.id.clone()));
    assert(params.deep_view() =~= update_params(task@));
    Statement { sql: UPDATE_SQL, params }
}

/// The statement that removes the row with the given `id`, if there is one.
pub fn delete_statement(id: &str) -> (statement: Statement)
    ensures
        statement.sql@ == DELETE_SQL@,
        statement.params.deep_view() == seq![Cell::Text(id@)],
{
    let mut params: Vec<SqlValue> = Vec::new();
    params.push(SqlValue::Text(String::from_str(id)));
    assert(params.deep_view() =~= seq![Cell::Text(id@)]);
    Statement { sql: DELETE_SQL, params }
}

fn text_at(cells: &Vec<SqlValue>, column: usize) -> (text: Result<String, StorageError>)
    requires
        column != 3,
        column != 5,
        column != 7,
    ensures
        match text {
            Ok(t) => column_fits(cells.deep_view(), column as int) && t@ == cell_text(
                cells.deep_view()[column as int],
            ),
            Err(e) => !column_fits(cells.deep_view(), column as int) && e@ == StorageFault::Decode(
                column,
            ),
        },
{
    if column < cells.len() {
        match &cells[column] {
            SqlValue::Text(t) => Ok(t.clone()),
            _ => Err(StorageError::Decode(column)),
        }
    } else {
        Err(StorageError::Decode(column))
    }
}

fn tags_at(cells: &Vec<SqlValue>) -> (tags: Result<Option<Vec<String>>, StorageError>)
    ensures
        match tags {
            Ok(read) => column_fits(cells.deep_view(), 7) && tags_of_text(
                cell_text(cells.deep_view()[7]),
            ) == Ok::<Option<Seq<Seq<char>>>, MalformedTags>(read.deep_view()),
            Err(e) => !column_fits(cells.deep_view(), 7) && e@ == StorageFault::Decode(7),
        },
{
    if 7 < cells.len() {
        match &cells[7] {
            SqlValue::Text(text) => match decode_tags(text.as_str()) {
                Ok(read) => Ok(read),
                Err(_) => Err(StorageError::Decode(7)),
            },
            _ => Err(StorageError::Decode(7)),
        }
    } else {
        Err(StorageError::Decode(7))
    }
}

fn quadrant_at(cells: &Vec<SqlValue>) -> (quadrant: Result<u8, StorageError>)
    ensures
        match quadrant {
            Ok(q) => column_fits(cells.deep_view(), 3) && cells.deep_view()[3] == Cell::Integer(
                q as i64,
            ),
            Err(e) => !column_fits(cells.deep_view(), 3) && e@ == StorageFault::Decode(3),
        },
{
    if 3 < cells.len() {
        match &cells[3] {
            SqlValue::Integer(n) => {
                if 0 <= *n && *n <= 255 {
                    Ok(*n as u8)
                } else {
                    Err(StorageError::Decode(3))
                }
            },
            _ => Err(StorageError::Decode(3)),
        }
    } else {
        Err(StorageError::Decode(3))
    }
}

fn completion_at(cells: &Vec<SqlValue>) -> (stamp: Result<Option<String>, StorageError>)
    ensures
        match stamp {
            Ok(s) => column_fits(cells.deep_view(), 5) && optional_text_cell(s.deep_view())
                == cells.deep_view()[5],
            Err(e) => !column_fits(cells.deep_view(), 5) && e@ == StorageFault::Decode(5),
        },
{
    if 5 < cells.len() {
        match &cells[5] {
            SqlValue::Text(t) => Ok(Some(t.clone())),
            SqlValue::Null => Ok(None),
            _ => Err(StorageError::Decode(5)),
        }
    } else {
        Err(StorageError::Decode(5))
    }
}

/// Reads one row as a task. The status word is read leniently and the tags
/// as their stored text says. A row that lacks a column, or holds a cell of
/// the wrong kind, a quadrant beyond a byte or a malformed tags text, is
/// refused with the first such column in reading order.
pub fn task_from_row(cells: &Vec<SqlValue>) -> (task: Result<Task, StorageError>)
    ensures
        task.is_ok() == row_task(cells.deep_view()).is_ok(),
        task matches Ok(t) ==> row_task(cells.deep_view()) == Ok::<TaskView, StorageFault>(t@),
        task matches Err(e) ==> row_task(cells.deep_view()) == Err::<TaskView, StorageFault>(e@),
{
    let status = match text_at(cells, 6) {
        Ok(word) => status_from_label(word.as_str()),
        Err(e) => { return Err(e); },
    };
    let tags = match tags_at(cells) {
        Ok(read) => read,
        Err(e) => { return Err(e); },
    };
    let id = match text_at(cells, 0) {
        Ok(text) => text,
        Err(e) => { return Err(e); },
    };
    let title = match text_at(cells, 1) {
        Ok(text) => text,
        Err(e) => { return Err(e); },
    };
    let description = match text_at(cells, 2) {
        Ok(text) => text,
        Err(e) => { return Err(e); },
    };
    let quadrant = match quadrant_at(cells) {
        Ok(q) => q,
        Err(e) => { return Err(e); },
    };
    let created_at = match text_at(cells, 4) {
        Ok(text) => text,
        Err(e) => { return Err(e); },
    };
    let completed_at = match completion_at(cells) {
        Ok(stamp) => stamp,
        Err(e) => { return Err(e); },
    };
    Ok(Task { id, title, description, quadrant, created_at, completed_at, status, tags })
}

/// Reads the rows of the table as tasks, in the order given. The first row
/// that cannot be read ends the reading with its error.
pub fn tasks_from_rows(rows: &Vec<Vec<SqlValue>>) -> (tasks: Result<Vec<Task>, StorageError>)
    ensures
        match tasks {
            Ok(list) => {
                &&& list.len() == rows.len()
                &&& forall|i: int|
                    0 <= i < rows.len() ==> row_task(#[trigger] rows.deep_view()[i]) == Ok::<
                        TaskView,
                        StorageFault,
                    >(list.deep_view()[i])
            },
            Err(e) => exists|i: int|
                {
                    &&& 0 <= i < rows.len()
                    &&& row_task(#[trigger] rows.deep_view()[i]) == Err::<TaskView, StorageFault>(
                        e@,
                    )
                    &&& forall|j: int|
                        0 <= j < i ==> row_task(#[trigger] rows.deep_view()[j]).is_ok()
                },
        },
{
    let mut list: Vec<Task> = Vec::new();
    let mut k: usize = 0;
    while k < rows.len()
        invariant
            k <= rows.len(),
            list.len() == k,
            forall|i: int|
                0 <= i < k ==> row_task(#[trigger] rows.deep_view()[i]) == Ok::<
                    TaskView,
                    StorageFault,
                >(list.deep_view()[i]),
        decreases rows.len() - k,
    {
        assert(rows.deep_view()[k as int] == rows[k as int].deep_view());
        match task_from_row(&rows[k]) {
            Ok(task) => {
                let ghost before = list.deep_view();
                list.push(task);
                assert(list.deep_view() =~= before.push(task@));
            },
            Err(e) => {
                return Err(e);
            },
        }
        k += 1;
    }
    Ok(list)
}

/// Whether the stored text of a task's tags can be read back. It can for a
/// task without tags and for one with an empty tag list.
pub open spec fn tags_readable(tags: Option<Seq<Seq<char>>>) -> bool {
    tags_of_text(tags_text(tags)) is Ok
}

/// The tags that a task has when it is read back from its stored row.
pub open spec fn reloaded_tags(tags: Option<Seq<Seq<char>>>) -> Option<Seq<Seq<char>>> {
    match tags_of_text(tags_text(tags)) {
        Ok(read) => read,
        Err(_) => None,
    }
}

/// A stored task is read back as it was written, where the stored text of
/// its tags can be read back: every field but the tags is the same, and the
/// tags are what their stored text stands for. Where that text cannot be
/// read back, reading the row fails at the tags column.
pub proof fn lemma_row_round_trip(task: TaskView)
    ensures
        tags_readable(task.tags) ==> row_task(row_cells(task)) == Ok::<TaskView, StorageFault>(
            TaskView { tags: reloaded_tags(task.tags), ..task },
        ),
        !tags_readable(task.tags) ==> row_task(row_cells(task)) == Err::<TaskView, StorageFault>(
            StorageFault::Decode(7),
        ),
        (task.tags matches Some(list) ==> list.len() == 0) ==> tags_readable(task.tags)
            && reloaded_tags(task.tags) is None,
{
    crate::codec::lemma_status_round_trip(task.status);
    let cells = row_cells(task);
    assert(cells.len() == 8);
    assert(cell_text(cells[7]) == tags_text(task.tags));
    if tags_readable(task.tags) {
        assert(misfit(cells) == None::<usize>);
    } else {
        assert(misfit(cells) == Some(7usize));
    }
}

/// The update writes, into each column it names, the cell that the task's own
/// row holds in that column, and selects the row by the task's `id`.
pub proof fn lemma_update_writes_row_cells(task: TaskView)
    ensures
        ({
            let row = row_cells(task);
            let params = update_params(task);
            &&& row.len() == 8
            &&& params.len() == 7
            &&& params[0] == row[1]
            &&& params[1] == row[2]
            &&& params[2] == row[3]
            &&& params[3] == row[5]
            &&& params[4] == row[6]
            &&& params[5] == row[7]
            &&& params[6] == row[0]
        }),
{
}

/// A task created from a title, a description, a quadrant and tags is read
/// back from its stored row pending, never completed, and with the
/// identifier, title, description, quadrant and creation time it has, where
/// the stored text of its tags can be read back. Its tags come back as that
/// text stands for them; a task created without tags comes back equal.
pub proof fn lemma_created_task_reloads(
    id: Seq<char>,
    now: crate::clock::Timestamp,
    title: Seq<char>,
    description: Seq<char>,
    quadrant: u8,
    tags: Option<Seq<Seq<char>>>,
)
    ensures
        ({
            let task = TaskView::created(id, now, title, description, quadrant, tags);
            &&& tags_readable(tags) ==> row_task(row_cells(task)) is Ok
            &&& tags is None ==> row_task(row_cells(task)) == Ok::<TaskView, StorageFault>(task)
            &&& row_task(row_cells(task)) matches Ok(reloaded) ==> {
                &&& reloaded.id == id
                &&& reloaded.title == title
                &&& reloaded.description == description
                &&& reloaded.quadrant == quadrant
                &&& reloaded.created_at == task.created_at
                &&& reloaded.status == crate::models::TaskStatus::Pending
                &&& reloaded.completed_at is None
                &&& reloaded.tags == reloaded_tags(tags)
            }
        }),
{
    lemma_row_round_trip(TaskView::created(id, now, title, description, quadrant, tags));
}

/// A task completed at `stamp` is read back from its stored row completed,
/// with `stamp` as its completion time, where its tags can be read back; and
/// whenever its row is read back at all.
pub proof fn lemma_completed_task_reloads(task: TaskView, stamp: Seq<char>)
    ensures
        tags_readable(task.tags) ==> row_task(row_cells(task.completed(stamp))) is Ok,
        row_task(row_cells(task.completed(stamp))) matches Ok(reloaded) ==> reloaded.status
            == crate::models::TaskStatus::Completed && reloaded.completed_at == Some(stamp),
{
    lemma_row_round_trip(task.completed(stamp));
}

/// A cancelled task is read back from its stored row cancelled, with the
/// completion time it had before it was cancelled, where its tags can be read
/// back; and whenever its row is read back at all.
pub proof fn lemma_cancelled_task_reloads(task: TaskView)
    ensures
        tags_readable(task.tags) ==> row_task(row_cells(task.cancelled())) is Ok,
        row_task(row_cells(task.cancelled())) matches Ok(reloaded) ==> reloaded.status
            == crate::models::TaskStatus::Cancelled && reloaded.completed_at == task.completed_at,
{
    lemma_row_round_trip(task.cancelled());
}

} // verus!
