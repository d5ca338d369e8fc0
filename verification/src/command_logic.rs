//! The commands of the tool: what each asks of the database, and what it
//! prints.

use vstd::prelude::*;
use crate::database::{DbAction, DbEvent, DbRequest, ElementRow};
use crate::database_structures::{AddElementStage, AddListStage, ElementView, ListView, ToDoElement, ToDoList};
use crate::decimal::{decimal_text, lemma_decimal_text_parses_back, parse_i32, spec_parse_i32};
use crate::report::{list_header_text, show_lines, show_row_text};
use crate::status::{status_label_text, Status};

verus! {

/// The `todo-element-id` argument `text` as an element id; the text must be
/// the decimal text of an `i32`.
fn element_id(text: &str) -> (id: i32)
    requires
        spec_parse_i32(text@) is Some,
    ensures
        spec_parse_i32(text@) == Some(id),
{
    match parse_i32(text) {
        Some(id) => id,
        None => 0,
    }
}

/// The `add` command: a new element for the task `todo_element`, ready to be
/// stored in the list named `list_name`, or, without a name, in the list
/// that comes first (the primary list).
pub fn add(todo_element: &str, list_name: Option<String>) -> (r: (ToDoElement, AddElementStage))
    ensures
        r.0@ == (ElementView { id: None, list_id: None, task: todo_element@, status: Status::Incomplete }),
        r.1 == (AddElementStage::Start { list_name }),
{
    (ToDoElement::new(todo_element), AddElementStage::Start { list_name })
}

/// The `add-list` command: a new list named `list_name`, ready to be stored.
pub fn add_list(list_name: &str) -> (r: (ToDoList, AddListStage))
    ensures
        r.0@ == (ListView { id: None, name: list_name@, is_primary: false }),
        r.1 == AddListStage::Start,
{
    (ToDoList::new(list_name), AddListStage::Start)
}

/// The `remove` command: delete the element whose id the argument gives,
/// which must be the decimal text of an `i32`.
pub fn remove(todo_element_id: &str) -> (r: DbRequest)
    requires
        spec_parse_i32(todo_element_id@) is Some,
    ensures
        r == (DbRequest::DeleteElement { id: spec_parse_i32(todo_element_id@)->0 }),
{
    DbRequest::DeleteElement { id: element_id(todo_element_id) }
}

/// The `status-complete` command: set the status of the element whose id the
/// argument gives to complete (`1`).
pub fn mark_complete(todo_element_id: &str) -> (r: DbRequest)
    requires
        spec_parse_i32(todo_element_id@) is Some,
    ensures
        r == (DbRequest::SetElementStatus { id: spec_parse_i32(todo_element_id@)->0, status: 1 }),
        1 == Status::Complete.spec_code(),
{
    DbRequest::SetElementStatus { id: element_id(todo_element_id), status: Status::Complete.code() }
}

/// The `status-incomplete` command: set the status of the element whose id
/// the argument gives to incomplete (`0`).
pub fn mark_incomplete(todo_element_id: &str) -> (r: DbRequest)
    requires
        spec_parse_i32(todo_element_id@) is Some,
    ensures
        r == (DbRequest::SetElementStatus { id: spec_parse_i32(todo_element_id@)->0, status: 0 }),
        0 == Status::Incomplete.spec_code(),
{
    DbRequest::SetElementStatus { id: element_id(todo_element_id), status: Status::Incomplete.code() }
}

/// Where the `show` command stands.
#[allow(inconsistent_fields)]
pub enum ShowStage {
    /// Not started; shows the list of this name, or, with `None`, the
    /// primary list (id `1`).
    Start { list_name: Option<String> },
    /// Waiting for the ids of the lists with the name.
    AwaitingList { list_name: String },
    /// Waiting for the rows of the list's elements.
    AwaitingElements { list_name: String },
    /// The text is printed.
    Finished,
    /// An unexpected event ended the command.
    Failed,
}

/// The lines that `show` prints for the list named `name` holding `rows`.
pub open spec fn show_lines_are(lines: Seq<String>, name: Seq<char>, rows: Seq<ElementRow>) -> bool {
    &&& lines.len() == rows.len() + 1
    &&& lines[0]@ == list_header_text(name)
    &&& forall|i: int| 0 <= i < rows.len() ==> #[trigger] lines[i + 1]@ == show_row_text(rows[i], i + 1)
}

/// The name under which `show` prints the primary list.
pub open spec fn primary_list_name() -> Seq<char> {
    "Primary"@
}

/// The events that `show` accepts at `stage`: the lookup must have found a
/// list, and the positions of the rows must fit the `i32` they are counted in.
pub open spec fn show_admits(stage: ShowStage, event: DbEvent) -> bool {
    &&& stage is AwaitingList ==> (event matches DbEvent::ListIds(ids) ==> ids@.len() > 0)
    &&& event matches DbEvent::Rows(rows) ==> rows@.len() < i32::MAX
}

/// One step of the `show` command: at `stage`, the event `event` leads to
/// `next`, and the command asks for `action`.
pub open spec fn show_step(stage: ShowStage, event: DbEvent, next: ShowStage, action: DbAction) -> bool {
    let unexpected = {
        &&& next == ShowStage::Failed
        &&& action == DbAction::Unexpected
    };
    match stage {
        ShowStage::Start { list_name } => match event {
            DbEvent::Begin => match list_name {
                Some(name) => {
                    &&& next == (ShowStage::AwaitingList { list_name: name })
                    &&& action == DbAction::Run(DbRequest::FindListByName { name })
                },
                None => {
                    &&& next matches ShowStage::AwaitingElements { list_name } && list_name@
                        == primary_list_name()
                    &&& action == DbAction::Run(DbRequest::ElementsOfList { list_id: 1, fresh_connection: false })
                },
            },
            _ => unexpected,
        },
        ShowStage::AwaitingList { list_name } => match event {
            DbEvent::ListIds(ids) => {
                &&& next == (ShowStage::AwaitingElements { list_name })
                &&& action == DbAction::Run(DbRequest::ElementsOfList { list_id: ids@[0] as i64, fresh_connection: true })
            },
            _ => unexpected,
        },
        ShowStage::AwaitingElements { list_name } => match event {
            DbEvent::Rows(rows) => {
                &&& next == ShowStage::Finished
                &&& action matches DbAction::Print(lines)
                &&& show_lines_are(lines@, list_name@, rows@)
            },
            _ => unexpected,
        },
        ShowStage::Finished => unexpected,
        ShowStage::Failed => unexpected,
    }
}

/// One step of the `show` command.
///
/// With a list name, the list is looked up by name, and the elements of the
/// first list found are read over a fresh connection; without one, the
/// elements of list `1` are read and the list is called `Primary`. Then the
/// heading and one numbered line per element are printed.
pub fn show(stage: ShowStage, event: DbEvent) -> (r: (ShowStage, DbAction))
    requires
        show_admits(stage, event),
    ensures
        show_step(stage, event, r.0, r.1),
{
    match stage {
        ShowStage::Start { list_name } => match event {
            DbEvent::Begin => match list_name {
                Some(name) => {
                    let lookup = name.clone();
                    (ShowStage::AwaitingList { list_name: name }, DbAction::Run(DbRequest::FindListByName { name: lookup }))
                },
                None => {
                    proof {
                        reveal_strlit("Primary");
                    }
                    (
                        ShowStage::AwaitingElements { list_name: String::from_str("Primary") },
                        DbAction::Run(DbRequest::ElementsOfList { list_id: 1, fresh_connection: false }),
                    )
                },
            },
            _ => (ShowStage::Failed, DbAction::Unexpected),
        },
        ShowStage::AwaitingList { list_name } => match event {
            DbEvent::ListIds(ids) => {
                let list_id = ids[0] as i64;
                (
                    ShowStage::AwaitingElements { list_name },
                    DbAction::Run(DbRequest::ElementsOfList { list_id, fresh_connection: true }),
                )
            },
            _ => (ShowStage::Failed, DbAction::Unexpected),
        },
        ShowStage::AwaitingElements { list_name } => match event {
            DbEvent::Rows(rows) => {
                let lines = show_lines(list_name.as_str(), &rows);
                (ShowStage::Finished, DbAction::Print(lines))
            },
            _ => (ShowStage::Failed, DbAction::Unexpected),
        },
        ShowStage::Finished => (ShowStage::Failed, DbAction::Unexpected),
        ShowStage::Failed => (ShowStage::Failed, DbAction::Unexpected),
    }
}

/// The id that `show` prints for an element, given back to `remove`,
/// `status-complete` or `status-incomplete`, is admitted and names that same
/// element.
pub proof fn lemma_shown_id_names_its_element(row: ElementRow, position: int, arg: Seq<char>)
    requires
        arg == decimal_text(row.id as int),
    ensures
        show_row_text(row, position) == "("@ + arg + ") "@ + decimal_text(position) + ". "@
            + row.task@ + ". "@ + crate::status::status_label_text(row.status as int),
        spec_parse_i32(arg) == Some(row.id),
{
    lemma_decimal_text_parses_back(row.id);
}

/// The text `show` prints for the element `row` at `position`, written out:
/// its id in brackets, its position, its whole task, and its status mark.
pub open spec fn shown_element_text(row: ElementRow, position: int) -> Seq<char> {
    "("@ + decimal_text(row.id as int) + ") "@ + decimal_text(position) + ". "@ + row.task@ + ". "@
        + status_label_text(row.status as int)
}

/// Whether `lines` is what `show` must print for the list named `name`
/// holding `rows`: the heading `List Name: ` with the whole name and a
/// newline, then exactly one line per row, in order, numbered from 1.
pub open spec fn prints_list(lines: Seq<String>, name: Seq<char>, rows: Seq<ElementRow>) -> bool {
    &&& lines.len() == rows.len() + 1
    &&& lines[0]@ == "List Name: "@ + name + "\n"@
    &&& forall|i: int| 0 <= i < rows.len() ==> #[trigger] lines[i + 1]@ == shown_element_text(rows[i], i + 1)
}

/// The heading of a list holds its whole name: it is `List Name: `, the
/// name, and a newline, so it is 12 characters longer than the name and the
/// name stands whole from the 12th character on.
pub proof fn law_heading_holds_whole_name(name: Seq<char>)
    ensures
        list_header_text(name) == "List Name: "@ + name + "\n"@,
        list_header_text(name).len() == name.len() + 12,
        list_header_text(name).subrange(11, 11 + name.len() as int) == name,
        list_header_text(name)[11 + name.len() as int] == '\n',
{
    reveal_strlit("List Name: ");
    reveal_strlit("\n");
    let h = list_header_text(name);
    assert(h.subrange(11, 11 + name.len() as int) =~= name);
}

/// The line `show` prints for an element holds its whole task, right after
/// its id and position and before its status mark.
pub proof fn law_shown_line_holds_whole_task(row: ElementRow, position: int)
    ensures
        show_row_text(row, position) == shown_element_text(row, position),
        ({
            let k: int = (1 + decimal_text(row.id as int).len() + 2 + decimal_text(position).len() + 2) as int;
            &&& show_row_text(row, position).subrange(k, k + row.task@.len() as int) == row.task@
            &&& show_row_text(row, position).len() == k + row.task@.len() + 2
                + status_label_text(row.status as int).len()
        }),
{
    reveal_strlit("(");
    reveal_strlit(") ");
    reveal_strlit(". ");
    let k: int = (1 + decimal_text(row.id as int).len() + 2 + decimal_text(position).len() + 2) as int;
    assert(show_row_text(row, position).subrange(k, k + row.task@.len() as int) =~= row.task@);
}

/// Whenever `show` is handed the rows of the list it is showing, it prints
/// the heading with the list's whole name and then exactly one line per row,
/// in the order given, each with the row's id, its position counted from 1,
/// its whole task and its status mark; and it is then finished.
pub proof fn law_show_prints_every_row(list_name: String, rows: Vec<ElementRow>, next: ShowStage, action: DbAction)
    requires
        show_step(ShowStage::AwaitingElements { list_name }, DbEvent::Rows(rows), next, action),
    ensures
        next == ShowStage::Finished,
        action matches DbAction::Print(lines) && prints_list(lines@, list_name@, rows@),
{
    if let DbAction::Print(lines) = action {
        assert forall|i: int| 0 <= i < rows@.len() implies #[trigger] lines@[i + 1]@ == shown_element_text(rows@[i], i + 1) by {
            law_shown_line_holds_whole_task(rows@[i], i + 1);
        }
    }
}

/// `show` without a list name shows the primary list: it asks for the
/// elements of list 1 over the open connection, and, handed their rows,
/// prints `List Name: Primary` and one numbered line for every row.
pub proof fn law_show_primary_prints_every_element(
    s1: ShowStage,
    a1: DbAction,
    rows: Vec<ElementRow>,
    s2: ShowStage,
    a2: DbAction,
)
    requires
        show_step(ShowStage::Start { list_name: None }, DbEvent::Begin, s1, a1),
        show_step(s1, DbEvent::Rows(rows), s2, a2),
    ensures
        a1 == DbAction::Run(DbRequest::ElementsOfList { list_id: 1, fresh_connection: false }),
        s2 == ShowStage::Finished,
        a2 matches DbAction::Print(lines) && prints_list(lines@, "Primary"@, rows@),
        a2 matches DbAction::Print(lines) && lines@[0]@ == "List Name: Primary\n"@,
{
    reveal_strlit("List Name: ");
    reveal_strlit("Primary");
    reveal_strlit("\n");
    reveal_strlit("List Name: Primary\n");
    if let ShowStage::AwaitingElements { list_name } = s1 {
        law_show_prints_every_row(list_name, rows, s2, a2);
        if let DbAction::Print(lines) = a2 {
            assert("List Name: "@ + "Primary"@ + "\n"@ =~= "List Name: Primary\n"@);
        }
    }
}

/// `show` with a list name looks the list up by that whole name, exactly as
/// given.
pub proof fn law_show_looks_up_whole_name(name: String, s1: ShowStage, a1: DbAction)
    requires
        show_step(ShowStage::Start { list_name: Some(name) }, DbEvent::Begin, s1, a1),
    ensures
        a1 matches DbAction::Run(DbRequest::FindListByName { name: lookup }) && lookup@ == name@,
        s1 matches ShowStage::AwaitingList { list_name } && list_name@ == name@,
{
}

/// `show` with a list name, once the lookup has found lists, asks for the
/// elements of the first one over a fresh connection, and, handed their
/// rows, prints the heading with the whole name given and one numbered line
/// for every row.
pub proof fn law_show_named_prints_every_element(
    name: String,
    s1: ShowStage,
    a1: DbAction,
    ids: Vec<i32>,
    s2: ShowStage,
    a2: DbAction,
    rows: Vec<ElementRow>,
    s3: ShowStage,
    a3: DbAction,
)
    requires
        show_step(ShowStage::Start { list_name: Some(name) }, DbEvent::Begin, s1, a1),
        show_admits(s1, DbEvent::ListIds(ids)),
        show_step(s1, DbEvent::ListIds(ids), s2, a2),
        show_step(s2, DbEvent::Rows(rows), s3, a3),
    ensures
        a1 matches DbAction::Run(DbRequest::FindListByName { name: lookup }) && lookup@ == name@,
        ids@.len() > 0,
        a2 == DbAction::Run(DbRequest::ElementsOfList { list_id: ids@[0] as i64, fresh_connection: true }),
        s3 == ShowStage::Finished,
        a3 matches DbAction::Print(lines) && prints_list(lines@, name@, rows@),
{
    if let ShowStage::AwaitingElements { list_name } = s2 {
        law_show_prints_every_row(list_name, rows, s3, a3);
    }
}

} // verus!
