//! The in-memory records of to-do elements and to-do lists, and the way each
//! record is stored in, and shown from, the database.

use vstd::prelude::*;
use crate::database::{DbAction, DbEvent, DbRequest, ElementRow};
use crate::report::{display_lines, display_row_text, list_header_text};
use crate::decimal::decimal_text;
use crate::status::Status;

verus! {

/// What a to-do element record holds: its row id and list id once stored,
/// its task text and its status.
pub struct ElementView {
    pub id: Option<i64>,
    pub list_id: Option<i32>,
    pub task: Seq<char>,
    pub status: Status,
}

/// A to-do element, mirroring a row of the `todo_elements` table.
pub struct ToDoElement {
    id: Option<i64>,
    list_id: Option<i32>,
    task: String,
    status: Status,
}

impl View for ToDoElement {
    type V = ElementView;

    closed spec fn view(&self) -> ElementView {
        ElementView { id: self.id, list_id: self.list_id, task: self.task@, status: self.status }
    }
}

/// Where `ToDoElement::add_to_database` stands.
pub enum AddElementStage {
    /// Not started; the element goes into the list of this name, or, with
    /// `None`, into the list that comes first.
    Start { list_name: Option<String> },
    /// Waiting for the ids of the lists that the lookup found.
    AwaitingList,
    /// Waiting for the row id of the element inserted into list `list_id`.
    AwaitingInsert { list_id: i32 },
    /// The element is stored.
    Finished,
    /// An unexpected event ended the operation.
    Failed,
}

/// The events that `ToDoElement::add_to_database` accepts at `stage`: the
/// lookup must have found a list.
pub open spec fn add_element_admits(stage: AddElementStage, event: DbEvent) -> bool {
    stage is AwaitingList ==> (event matches DbEvent::ListIds(ids) ==> ids@.len() > 0)
}

/// The answer to an event that the operation is not waiting for: nothing
/// changes, and the operation ends.
pub open spec fn element_unexpected(pre: ElementView, post: ElementView, next: AddElementStage, action: DbAction) -> bool {
    &&& post == pre
    &&& next == AddElementStage::Failed
    &&& action == DbAction::Unexpected
}

/// One step of `ToDoElement::add_to_database`: from the element `pre` at
/// `stage`, the event `event` leads to the element `post` at `next`, and the
/// operation asks for `action`.
pub open spec fn add_element_step(
    pre: ElementView,
    stage: AddElementStage,
    event: DbEvent,
    post: ElementView,
    next: AddElementStage,
    action: DbAction,
) -> bool {
    match stage {
        AddElementStage::Start { list_name } => match event {
            DbEvent::Begin => {
                &&& post == pre
                &&& next == AddElementStage::AwaitingList
                &&& action == match list_name {
                    Some(name) => DbAction::Run(DbRequest::FindListByName { name }),
                    None => DbAction::Run(DbRequest::AllLists),
                }
            },
            _ => element_unexpected(pre, post, next, action),
        },
        AddElementStage::AwaitingList => match event {
            DbEvent::ListIds(ids) => {
                &&& post == pre
                &&& next == (AddElementStage::AwaitingInsert { list_id: ids@[0] })
                &&& action matches DbAction::Run(DbRequest::InsertElement { list_id, task, status })
                &&& list_id == ids@[0]
                &&& task@ == pre.task
                &&& status as int == pre.status.spec_code()
            },
            _ => element_unexpected(pre, post, next, action),
        },
        AddElementStage::AwaitingInsert { list_id } => match event {
            DbEvent::Inserted(row_id) => {
                &&& post == ElementView { id: Some(row_id), list_id: Some(list_id), ..pre }
                &&& next == AddElementStage::Finished
                &&& action == DbAction::Finish
            },
            _ => element_unexpected(pre, post, next, action),
        },
        AddElementStage::Finished => element_unexpected(pre, post, next, action),
        AddElementStage::Failed => element_unexpected(pre, post, next, action),
    }
}

impl ToDoElement {
    /// A new element for `task`: not stored yet, in no list, incomplete.
    pub fn new(task: &str) -> (e: ToDoElement)
        ensures
            e@ == (ElementView { id: None, list_id: None, task: task@, status: Status::Incomplete }),
    {
        ToDoElement { id: None, list_id: None, task: String::from_str(task), status: Status::Incomplete }
    }

    /// The row id of the element, once stored.
    pub fn get_id(&self) -> (r: Option<i64>)
        ensures
            r == self@.id,
    {
        self.id
    }

    /// The id of the list the element belongs to, once stored.
    pub fn get_list_id(&self) -> (r: Option<i32>)
        ensures
            r == self@.list_id,
    {
        self.list_id
    }

    /// The task text of the element.
    pub fn get_task(&self) -> (r: &str)
        ensures
            r@ == self@.task,
    {
        self.task.as_str()
    }

    /// The status of the element.
    pub fn get_status(&self) -> (r: &Status)
        ensures
            *r == self@.status,
    {
        &self.status
    }

    /// One step of storing the element in the database, so that the element
    /// then reflects the row stored for it.
    ///
    /// From `Start`, the list is looked up: by name, or, without a name, all
    /// lists. The element is inserted into the first list found, with its
    /// task and status code (the lookup must have found a list). The inserted
    /// row id becomes the element's id, and the list it went into its list id.
    pub fn add_to_database(&mut self, stage: AddElementStage, event: DbEvent) -> (r: (AddElementStage, DbAction))
        requires
            add_element_admits(stage, event),
        ensures
            add_element_step(old(self)@, stage, event, final(self)@, r.0, r.1),
    {
        match stage {
            AddElementStage::Start { list_name } => match event {
                DbEvent::Begin => match list_name {
                    Some(name) => (AddElementStage::AwaitingList, DbAction::Run(DbRequest::FindListByName { name })),
                    None => (AddElementStage::AwaitingList, DbAction::Run(DbRequest::AllLists)),
                },
                _ => (AddElementStage::Failed, DbAction::Unexpected),
            },
            AddElementStage::AwaitingList => match event {
                DbEvent::ListIds(ids) => {
                    let list_id = ids[0];
                    let status = self.status.code();
                    let task = self.task.clone();
                    (
                        AddElementStage::AwaitingInsert { list_id },
                        DbAction::Run(DbRequest::InsertElement { list_id, task, status }),
                    )
                },
                _ => (AddElementStage::Failed, DbAction::Unexpected),
            },
            AddElementStage::AwaitingInsert { list_id } => match event {
                DbEvent::Inserted(row_id) => {
                    self.id = Some(row_id);
                    self.list_id = Some(list_id);
                    (AddElementStage::Finished, DbAction::Finish)
                },
                _ => (AddElementStage::Failed, DbAction::Unexpected),
            },
            AddElementStage::Finished => (AddElementStage::Failed, DbAction::Unexpected),
            AddElementStage::Failed => (AddElementStage::Failed, DbAction::Unexpected),
        }
    }
}

/// What a to-do list record holds: its row id once stored, its name, and
/// whether it is the primary list.
pub struct ListView {
    pub id: Option<i64>,
    pub name: Seq<char>,
    pub is_primary: bool,
}

/// A to-do list, mirroring a row of the `todo_lists` table.
pub struct ToDoList {
    pub id: Option<i64>,
    pub name: String,
    pub is_primary: bool,
}

impl View for ToDoList {
    type V = ListView;

    open spec fn view(&self) -> ListView {
        ListView { id: self.id, name: self.name@, is_primary: self.is_primary }
    }
}

/// Where `ToDoList::add_to_database` stands.
pub enum AddListStage {
    /// Not started.
    Start,
    /// Waiting for the row id of the inserted list.
    AwaitingInsert,
    /// The list is stored.
    Finished,
    /// An unexpected event ended the operation.
    Failed,
}

/// The events that `ToDoList::add_to_database` accepts for the list `list`
/// at `stage`: only a list that is not stored yet can start being stored.
pub open spec fn add_list_admits(list: ListView, stage: AddListStage, event: DbEvent) -> bool {
    (stage is Start && event is Begin) ==> list.id is None
}

/// One step of `ToDoList::add_to_database`: from the list `pre` at `stage`,
/// the event `event` leads to the list `post` at `next`, and the operation
/// asks for `action`.
pub open spec fn add_list_step(
    pre: ListView,
    stage: AddListStage,
    event: DbEvent,
    post: ListView,
    next: AddListStage,
    action: DbAction,
) -> bool {
    let unexpected = {
        &&& post == pre
        &&& next == AddListStage::Failed
        &&& action == DbAction::Unexpected
    };
    match stage {
        AddListStage::Start => match event {
            DbEvent::Begin => {
                &&& post == pre
                &&& next == AddListStage::AwaitingInsert
                &&& action matches DbAction::Run(DbRequest::InsertList { name, is_primary })
                &&& name@ == pre.name
                &&& is_primary == pre.is_primary
            },
            _ => unexpected,
        },
        AddListStage::AwaitingInsert => match event {
            DbEvent::Inserted(row_id) => {
                &&& post == ListView { id: Some(row_id), ..pre }
                &&& next == AddListStage::Finished
                &&& action == DbAction::Finish
            },
            _ => unexpected,
        },
        AddListStage::Finished => unexpected,
        AddListStage::Failed => unexpected,
    }
}

/// Where `ToDoList::display_list` stands.
pub enum DisplayStage {
    /// Not started.
    Start,
    /// Waiting for the rows of the list's elements.
    AwaitingRows,
    /// The text is printed.
    Finished,
    /// An unexpected event ended the operation.
    Failed,
}

/// The lines that `display_list` prints for the list named `name` holding
/// `rows`.
pub open spec fn display_lines_are(lines: Seq<String>, name: Seq<char>, rows: Seq<ElementRow>) -> bool {
    &&& lines.len() == rows.len() + 1
    &&& lines[0]@ == list_header_text(name)
    &&& forall|i: int| 0 <= i < rows.len() ==> #[trigger] lines[i + 1]@ == display_row_text(rows[i])
}

/// The events that `ToDoList::display_list` accepts for the list `list` at
/// `stage`: only a stored list can be displayed.
pub open spec fn display_admits(list: ListView, stage: DisplayStage, event: DbEvent) -> bool {
    (stage is Start && event is Begin) ==> list.id is Some
}

/// One step of `ToDoList::display_list` for the list `list`: at `stage`, the
/// event `event` leads to `next`, and the operation asks for `action`.
pub open spec fn display_step(
    list: ListView,
    stage: DisplayStage,
    event: DbEvent,
    next: DisplayStage,
    action: DbAction,
) -> bool {
    let unexpected = {
        &&& next == DisplayStage::Failed
        &&& action == DbAction::Unexpected
    };
    match stage {
        DisplayStage::Start => match event {
            DbEvent::Begin => {
                &&& next == DisplayStage::AwaitingRows
                &&& action == DbAction::Run(
                    DbRequest::ElementsOfList { list_id: list.id->0, fresh_connection: false },
                )
            },
            _ => unexpected,
        },
        DisplayStage::AwaitingRows => match event {
            DbEvent::Rows(rows) => {
                &&& next == DisplayStage::Finished
                &&& action matches DbAction::Print(lines)
                &&& display_lines_are(lines@, list.name, rows@)
            },
            _ => unexpected,
        },
        DisplayStage::Finished => unexpected,
        DisplayStage::Failed => unexpected,
    }
}

impl ToDoList {
    /// A new list named `name`: not stored yet, and not the primary list.
    pub fn new(name: &str) -> (l: ToDoList)
        ensures
            l@ == (ListView { id: None, name: name@, is_primary: false }),
    {
        ToDoList { id: None, name: String::from_str(name), is_primary: false }
    }

    /// One step of storing the list in the database, which a list not yet
    /// stored can start: its name and primary flag are inserted, and the
    /// inserted row id becomes its id.
    pub fn add_to_database(&mut self, stage: AddListStage, event: DbEvent) -> (r: (AddListStage, DbAction))
        requires
            add_list_admits(old(self)@, stage, event),
        ensures
            add_list_step(old(self)@, stage, event, final(self)@, r.0, r.1),
    {
        match stage {
            AddListStage::Start => match event {
                DbEvent::Begin => {
                    let name = self.name.clone();
                    (AddListStage::AwaitingInsert, DbAction::Run(DbRequest::InsertList { name, is_primary: self.is_primary }))
                },
                _ => (AddListStage::Failed, DbAction::Unexpected),
            },
            AddListStage::AwaitingInsert => match event {
                DbEvent::Inserted(row_id) => {
                    self.id = Some(row_id);
                    (AddListStage::Finished, DbAction::Finish)
                },
                _ => (AddListStage::Failed, DbAction::Unexpected),
            },
            AddListStage::Finished => (AddListStage::Failed, DbAction::Unexpected),
            AddListStage::Failed => (AddListStage::Failed, DbAction::Unexpected),
        }
    }

    /// One step of printing the elements of a stored list: it asks for the
    /// rows of the list's elements, then prints its heading and one line per
    /// row.
    pub fn display_list(&self, stage: DisplayStage, event: DbEvent) -> (r: (DisplayStage, DbAction))
        requires
            display_admits(self@, stage, event),
        ensures
            display_step(self@, stage, event, r.0, r.1),
    {
        match stage {
            DisplayStage::Start => match event {
                DbEvent::Begin => {
                    let list_id = match self.id {
                        Some(id) => id,
                        None => 0,
                    };
                    (DisplayStage::AwaitingRows, DbAction::Run(DbRequest::ElementsOfList { list_id, fresh_connection: false }))
                },
                _ => (DisplayStage::Failed, DbAction::Unexpected),
            },
            DisplayStage::AwaitingRows => match event {
                DbEvent::Rows(rows) => {
                    let lines = display_lines(self.name.as_str(), &rows);
                    (DisplayStage::Finished, DbAction::Print(lines))
                },
                _ => (DisplayStage::Failed, DbAction::Unexpected),
            },
            DisplayStage::Finished => (DisplayStage::Failed, DbAction::Unexpected),
            DisplayStage::Failed => (DisplayStage::Failed, DbAction::Unexpected),
        }
    }
}

/// Storing an element ends after three steps with the element reflecting the
/// row stored for it: its id is the row id, and its list id, task and status
/// code are those the row was inserted with. The row goes into the first
/// list the lookup found (by name, or among all lists without a name).
pub proof fn lemma_element_mirrors_inserted_row(
    e0: ElementView,
    list_name: Option<String>,
    e1: ElementView,
    s1: AddElementStage,
    a1: DbAction,
    ids: Vec<i32>,
    e2: ElementView,
    s2: AddElementStage,
    a2: DbAction,
    row_id: i64,
    e3: ElementView,
    s3: AddElementStage,
    a3: DbAction,
)
    requires
        add_element_step(e0, AddElementStage::Start { list_name }, DbEvent::Begin, e1, s1, a1),
        add_element_admits(s1, DbEvent::ListIds(ids)),
        add_element_step(e1, s1, DbEvent::ListIds(ids), e2, s2, a2),
        add_element_step(e2, s2, DbEvent::Inserted(row_id), e3, s3, a3),
    ensures
        ids@.len() > 0,
        a1 == (match list_name {
            Some(name) => DbAction::Run(DbRequest::FindListByName { name }),
            None => DbAction::Run(DbRequest::AllLists),
        }),
        a2 matches DbAction::Run(DbRequest::InsertElement { list_id, task, status }) && list_id
            == ids@[0] && e3.id == Some(row_id) && e3.list_id == Some(list_id) && e3.task == task@
            && task@ == e0.task && e3.status == e0.status && e3.status.spec_code() == status as int,
        s3 == AddElementStage::Finished,
        a3 == DbAction::Finish,
{
}

/// A new element is stored with status code `0`, the code of an incomplete
/// element, which `show` prints as `[ ]`.
pub proof fn lemma_new_element_stored_incomplete(
    task: Seq<char>,
    stage: AddElementStage,
    event: DbEvent,
    post: ElementView,
    next: AddElementStage,
    action: DbAction,
)
    requires
        add_element_step(
            ElementView { id: None, list_id: None, task, status: Status::Incomplete },
            stage,
            event,
            post,
            next,
            action,
        ),
        action matches DbAction::Run(DbRequest::InsertElement { .. }),
    ensures
        action matches DbAction::Run(DbRequest::InsertElement { status, .. }) && status == 0
            && crate::status::status_label_text(status as int) == "[ ]"@,
{
}

/// A list is stored at most once: once storing it has finished, it holds the
/// row id it was given, and storing it again is not admitted.
pub proof fn lemma_list_stored_once(
    l0: ListView,
    l1: ListView,
    s1: AddListStage,
    a1: DbAction,
    row_id: i64,
    l2: ListView,
    s2: AddListStage,
    a2: DbAction,
)
    requires
        add_list_admits(l0, AddListStage::Start, DbEvent::Begin),
        add_list_step(l0, AddListStage::Start, DbEvent::Begin, l1, s1, a1),
        add_list_step(l1, s1, DbEvent::Inserted(row_id), l2, s2, a2),
    ensures
        a1 matches DbAction::Run(DbRequest::InsertList { name, is_primary }) && name@ == l0.name
            && is_primary == l0.is_primary,
        l2 == (ListView { id: Some(row_id), ..l0 }),
        s2 == AddListStage::Finished,
        !add_list_admits(l2, AddListStage::Start, DbEvent::Begin),
{
}

/// Once a list is stored, it can be displayed, and displaying it asks for
/// the elements of the row id the database gave it.
pub proof fn lemma_stored_list_displays_its_row(
    l0: ListView,
    row_id: i64,
    l1: ListView,
    s1: AddListStage,
    a1: DbAction,
    next: DisplayStage,
    action: DbAction,
)
    requires
        add_list_step(l0, AddListStage::AwaitingInsert, DbEvent::Inserted(row_id), l1, s1, a1),
        display_step(l1, DisplayStage::Start, DbEvent::Begin, next, action),
    ensures
        display_admits(l1, DisplayStage::Start, DbEvent::Begin),
        action == DbAction::Run(DbRequest::ElementsOfList { list_id: row_id, fresh_connection: false }),
        next == DisplayStage::AwaitingRows,
{
}

/// The text `display_list` prints for the element `row`, written out: its
/// id, its list id, its whole task and its status code, then a newline and a
/// space.
pub open spec fn displayed_element_text(row: ElementRow) -> Seq<char> {
    "id: "@ + decimal_text(row.id as int) + ", list_id: "@ + decimal_text(row.list_id as int) + ", task: "@
        + row.task@ + ", status: "@ + decimal_text(row.status as int) + "\n "@
}

/// The line `display_list` prints for an element holds its whole task,
/// right after its id and list id and before its status.
pub proof fn law_displayed_line_holds_whole_task(row: ElementRow)
    ensures
        display_row_text(row) == displayed_element_text(row),
        ({
            let k: int = (4 + decimal_text(row.id as int).len() + 11 + decimal_text(row.list_id as int).len()
                + 8) as int;
            &&& display_row_text(row).subrange(k, k + row.task@.len() as int) == row.task@
            &&& display_row_text(row).len() == k + row.task@.len() + 10 + decimal_text(row.status as int).len()
                + 2
        }),
{
    reveal_strlit("id: ");
    reveal_strlit(", list_id: ");
    reveal_strlit(", task: ");
    reveal_strlit(", status: ");
    reveal_strlit("\n ");
    let k: int = (4 + decimal_text(row.id as int).len() + 11 + decimal_text(row.list_id as int).len() + 8) as int;
    assert(display_row_text(row).subrange(k, k + row.task@.len() as int) =~= row.task@);
}

/// Printing a stored list asks for the elements of its row id over the open
/// connection, and, handed their rows, prints `List Name: ` with the list's
/// whole name, then exactly one line per row, in the order given, each with
/// the row's id, list id, whole task and status.
pub proof fn law_display_prints_every_row(
    list: ListView,
    s1: DisplayStage,
    a1: DbAction,
    rows: Vec<ElementRow>,
    s2: DisplayStage,
    a2: DbAction,
)
    requires
        display_admits(list, DisplayStage::Start, DbEvent::Begin),
        display_step(list, DisplayStage::Start, DbEvent::Begin, s1, a1),
        display_step(list, s1, DbEvent::Rows(rows), s2, a2),
    ensures
        list.id is Some,
        a1 == DbAction::Run(DbRequest::ElementsOfList { list_id: list.id->0, fresh_connection: false }),
        s2 == DisplayStage::Finished,
        a2 matches DbAction::Print(lines) && lines@.len() == rows@.len() + 1 && lines@[0]@ == "List Name: "@
            + list.name + "\n"@ && forall|i: int|
            0 <= i < rows@.len() ==> #[trigger] lines@[i + 1]@ == displayed_element_text(rows@[i]),
{
    if let DbAction::Print(lines) = a2 {
        assert forall|i: int| 0 <= i < rows@.len() implies #[trigger] lines@[i + 1]@ == displayed_element_text(
            rows@[i],
        ) by {
            law_displayed_line_holds_whole_task(rows@[i]);
        }
    }
}

} // verus!
