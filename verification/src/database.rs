//! What the library asks of the database, and what the database answers.
//!
//! Each database-backed operation is a state machine: it is handed an event
//! (the start, or the answer to its last request) and returns its next stage
//! together with an action (a request to run, text to print, or the end).
//! The program around the library performs the action and hands the answer
//! back. Each request is carried out as the SQL statement, with the bound
//! values, that `DbRequest::statement` gives.

use vstd::prelude::*;

verus! {

/// A row of the `todo_elements` table, its columns read as the tool reads
/// them: `id`, `list_id`, `task` and `status`.
#[derive(Debug)]
pub struct ElementRow {
    pub id: i32,
    pub list_id: i32,
    pub task: String,
    pub status: i32,
}

/// A request to the to-do database.
#[derive(Debug)]
#[allow(inconsistent_fields)]
pub enum DbRequest {
    /// Create the `todo_lists` table if it does not exist.
    CreateListsTable,
    /// Create the `todo_elements` table if it does not exist.
    CreateElementsTable,
    /// Select the primary lists; answered by their ids.
    PrimaryLists,
    /// Insert a row into `todo_lists`; answered by the new row id.
    InsertList { name: String, is_primary: bool },
    /// Select the lists with the given name; answered by their ids.
    FindListByName { name: String },
    /// Select all lists; answered by their ids.
    AllLists,
    /// Insert a row into `todo_elements`; answered by the new row id.
    InsertElement { list_id: i32, task: String, status: i32 },
    /// Select the elements of a list; answered by their rows. With
    /// `fresh_connection` the request goes over a newly opened connection.
    ElementsOfList { list_id: i64, fresh_connection: bool },
    /// Delete the element with the given id.
    DeleteElement { id: i32 },
    /// Set the status column of the element with the given id.
    SetElementStatus { id: i32, status: i32 },
}

/// What the database answered, or the start of an operation.
#[derive(Debug)]
pub enum DbEvent {
    /// The operation starts.
    Begin,
    /// The ids (first column) of the list rows that a selection returned.
    ListIds(Vec<i32>),
    /// The row id of an inserted row.
    Inserted(i64),
    /// The element rows that a selection returned.
    Rows(Vec<ElementRow>),
    /// A request that returns nothing was carried out.
    Executed,
}

/// What the operation wants done next.
#[derive(Debug)]
pub enum DbAction {
    /// Run this request and hand back its answer.
    Run(DbRequest),
    /// Print these lines, each followed by a newline; the operation is over.
    Print(Vec<String>),
    /// The operation is over.
    Finish,
    /// The event is not the answer the operation awaits at its stage; the
    /// operation is over and nothing was changed.
    Unexpected,
}

/// A value bound to a parameter of a statement.
#[derive(Debug)]
pub enum SqlValue {
    Integer(i64),
    Text(String),
    Boolean(bool),
}

/// How the answer to a statement is read.
#[derive(Debug, Clone, Copy, PartialEq, Eq, Structural)]
pub enum AnswerKind {
    /// Nothing is read: the answer is `Executed`.
    Nothing,
    /// The id of the inserted row: the answer is `Inserted`.
    RowId,
    /// The first column of each selected row: the answer is `ListIds`.
    ListIds,
    /// The selected element rows: the answer is `Rows`.
    ElementRows,
}

/// A SQL statement, the values bound to its parameters `$1`, `$2`, ... in
/// order, how its answer is read, and whether it runs over a newly opened
/// connection.
#[derive(Debug)]
pub struct Statement {
    pub sql: &'static str,
    pub binds: Vec<SqlValue>,
    pub answer: AnswerKind,
    pub fresh_connection: bool,
}

pub const CREATE_LISTS_SQL: &'static str =
    "CREATE TABLE IF NOT EXISTS todo_lists (id INTEGER PRIMARY KEY, list_name TEXT, is_primary BOOL)";

pub const CREATE_ELEMENTS_SQL: &'static str =
    "CREATE TABLE IF NOT EXISTS todo_elements (id INTEGER PRIMARY KEY AUTOINCREMENT, list_id INTEGER, task TEXT, status INTEGER)";

pub const PRIMARY_LISTS_SQL: &'static str = "SELECT * FROM todo_lists WHERE is_primary = $1";

pub const INSERT_LIST_SQL: &'static str = "INSERT INTO todo_lists (list_name, is_primary) VALUES ($1, $2)";

pub const FIND_LIST_SQL: &'static str = "SELECT * FROM todo_lists WHERE list_name = $1";

pub const ALL_LISTS_SQL: &'static str = "SELECT * FROM todo_lists";

pub const INSERT_ELEMENT_SQL: &'static str = "INSERT INTO todo_elements (list_id, task, status) VALUES ($1, $2, $3)";

pub const ELEMENTS_OF_LIST_SQL: &'static str = "SELECT * FROM todo_elements WHERE list_id = $1";

pub const DELETE_ELEMENT_SQL: &'static str = "DELETE FROM todo_elements WHERE id = $1";

pub const SET_STATUS_SQL: &'static str = "UPDATE todo_elements SET status = $1 WHERE id = $2";

/// Whether `v` is the text value `text`.
pub open spec fn is_text(v: SqlValue, text: Seq<char>) -> bool {
    v matches SqlValue::Text(t) && t@ == text
}

/// Whether `s` is the statement that carries out `r`.
pub open spec fn statement_of(r: DbRequest, s: Statement) -> bool {
    let b = s.binds@;
    match r {
        DbRequest::CreateListsTable => {
            &&& s.sql@ == CREATE_LISTS_SQL@
            &&& b.len() == 0
            &&& s.answer == AnswerKind::Nothing
            &&& !s.fresh_connection
        },
        DbRequest::CreateElementsTable => {
            &&& s.sql@ == CREATE_ELEMENTS_SQL@
            &&& b.len() == 0
            &&& s.answer == AnswerKind::Nothing
            &&& !s.fresh_connection
        },
        DbRequest::PrimaryLists => {
            &&& s.sql@ == PRIMARY_LISTS_SQL@
            &&& b.len() == 1
            &&& b[0] == SqlValue::Boolean(true)
            &&& s.answer == AnswerKind::ListIds
            &&& !s.fresh_connection
        },
        DbRequest::InsertList { name, is_primary } => {
            &&& s.sql@ == INSERT_LIST_SQL@
            &&& b.len() == 2
            &&& is_text(b[0], name@)
            &&& b[1] == SqlValue::Boolean(is_primary)
            &&& s.answer == AnswerKind::RowId
            &&& !s.fresh_connection
        },
        DbRequest::FindListByName { name } => {
            &&& s.sql@ == FIND_LIST_SQL@
            &&& b.len() == 1
            &&& is_text(b[0], name@)
            &&& s.answer == AnswerKind::ListIds
            &&& !s.fresh_connection
        },
        DbRequest::AllLists => {
            &&& s.sql@ == ALL_LISTS_SQL@
            &&& b.len() == 0
            &&& s.answer == AnswerKind::ListIds
            &&& !s.fresh_connection
        },
        DbRequest::InsertElement { list_id, task, status } => {
            &&& s.sql@ == INSERT_ELEMENT_SQL@
            &&& b.len() == 3
            &&& b[0] == SqlValue::Integer(list_id as i64)
            &&& is_text(b[1], task@)
            &&& b[2] == SqlValue::Integer(status as i64)
            &&& s.answer == AnswerKind::RowId
            &&& !s.fresh_connection
        },
        DbRequest::ElementsOfList { list_id, fresh_connection } => {
            &&& s.sql@ == ELEMENTS_OF_LIST_SQL@
            &&& b.len() == 1
            &&& b[0] == SqlValue::Integer(list_id)
            &&& s.answer == AnswerKind::ElementRows
            &&& s.fresh_connection == fresh_connection
        },
        DbRequest::DeleteElement { id } => {
            &&& s.sql@ == DELETE_ELEMENT_SQL@
            &&& b.len() == 1
            &&& b[0] == SqlValue::Integer(id as i64)
            &&& s.answer == AnswerKind::Nothing
            &&& !s.fresh_connection
        },
        DbRequest::SetElementStatus { id, status } => {
            &&& s.sql@ == SET_STATUS_SQL@
            &&& b.len() == 2
            &&& b[0] == SqlValue::Integer(status as i64)
            &&& b[1] == SqlValue::Integer(id as i64)
            &&& s.answer == AnswerKind::Nothing
            &&& !s.fresh_connection
        },
    }
}

impl DbRequest {
    /// The SQL statement that carries out this request, with its bound
    /// values, the way its answer is read, and the connection it runs over.
    pub fn statement(&self) -> (s: Statement)
        ensures
            statement_of(*self, s),
    {
        let mut binds: Vec<SqlValue> = Vec::new();
        match self {
            DbRequest::CreateListsTable => Statement {
                sql: CREATE_LISTS_SQL,
                binds,
                answer: AnswerKind::Nothing,
                fresh_connection: false,
            },
            DbRequest::CreateElementsTable => Statement {
                sql: CREATE_ELEMENTS_SQL,
                binds,
                answer: AnswerKind::Nothing,
                fresh_connection: false,
            },
            DbRequest::PrimaryLists => {
                binds.push(SqlValue::Boolean(true));
                Statement { sql: PRIMARY_LISTS_SQL, binds, answer: AnswerKind::ListIds, fresh_connection: false }
            },
            DbRequest::InsertList { name, is_primary } => {
                binds.push(SqlValue::Text(name.clone()));
                binds.push(SqlValue::Boolean(*is_primary));
                Statement { sql: INSERT_LIST_SQL, binds, answer: AnswerKind::RowId, fresh_connection: false }
            },
            DbRequest::FindListByName { name } => {
                binds.push(SqlValue::Text(name.clone()));
                Statement { sql: FIND_LIST_SQL, binds, answer: AnswerKind::ListIds, fresh_connection: false }
            },
            DbRequest::AllLists => Statement {
                sql: ALL_LISTS_SQL,
                binds,
                answer: AnswerKind::ListIds,
                fresh_connection: false,
            },
            DbRequest::InsertElement { list_id, task, status } => {
                binds.push(SqlValue::Integer(*list_id as i64));
                binds.push(SqlValue::Text(task.clone()));
                binds.push(SqlValue::Integer(*status as i64));
                Statement { sql: INSERT_ELEMENT_SQL, binds, answer: AnswerKind::RowId, fresh_connection: false }
            },
            DbRequest::ElementsOfList { list_id, fresh_connection } => {
                binds.push(SqlValue::Integer(*list_id));
                Statement {
                    sql: ELEMENTS_OF_LIST_SQL,
                    binds,
                    answer: AnswerKind::ElementRows,
                    fresh_connection: *fresh_connection,
                }
            },
            DbRequest::DeleteElement { id } => {
                binds.push(SqlValue::Integer(*id as i64));
                Statement { sql: DELETE_ELEMENT_SQL, binds, answer: AnswerKind::Nothing, fresh_connection: false }
            },
            DbRequest::SetElementStatus { id, status } => {
                binds.push(SqlValue::Integer(*status as i64));
                binds.push(SqlValue::Integer(*id as i64));
                Statement { sql: SET_STATUS_SQL, binds, answer: AnswerKind::Nothing, fresh_connection: false }
            },
        }
    }
}

} // verus!
