//! Setting up the database, and telling which command the user gave.

use vstd::prelude::*;
use crate::database::{DbAction, DbEvent, DbRequest};

verus! {

/// Where `database_schema` stands.
pub enum SchemaStage {
    /// Not started.
    Start,
    /// Waiting while the `todo_lists` table is created.
    CreatingLists,
    /// Waiting while the `todo_elements` table is created.
    CreatingElements,
    /// Waiting for the ids of the primary lists.
    CheckingPrimary,
    /// Waiting for the row id of the inserted primary list.
    InsertingPrimary,
    /// The database is set up.
    Finished,
    /// An unexpected event ended the operation.
    Failed,
}

/// Whether `action` inserts the primary list, named `Primary`.
pub open spec fn inserts_primary_list(action: DbAction) -> bool {
    action matches DbAction::Run(DbRequest::InsertList { name, is_primary }) && name@ == "Primary"@
        && is_primary
}

/// One step of `database_schema`: at `stage`, the event `event` leads to
/// `next`, and the set-up asks for `action`.
pub open spec fn schema_step(stage: SchemaStage, event: DbEvent, next: SchemaStage, action: DbAction) -> bool {
    let unexpected = {
        &&& next == SchemaStage::Failed
        &&& action == DbAction::Unexpected
    };
    match (stage, event) {
        (SchemaStage::Start, DbEvent::Begin) => {
            &&& next == SchemaStage::CreatingLists
            &&& action == DbAction::Run(DbRequest::CreateListsTable)
        },
        (SchemaStage::CreatingLists, DbEvent::Executed) => {
            &&& next == SchemaStage::CreatingElements
            &&& action == DbAction::Run(DbRequest::CreateElementsTable)
        },
        (SchemaStage::CreatingElements, DbEvent::Executed) => {
            &&& next == SchemaStage::CheckingPrimary
            &&& action == DbAction::Run(DbRequest::PrimaryLists)
        },
        (SchemaStage::CheckingPrimary, DbEvent::ListIds(ids)) => if ids@.len() == 0 {
            &&& next == SchemaStage::InsertingPrimary
            &&& inserts_primary_list(action)
        } else {
            &&& next == SchemaStage::Finished
            &&& action == DbAction::Finish
        },
        (SchemaStage::InsertingPrimary, DbEvent::Inserted(_)) => {
            &&& next == SchemaStage::Finished
            &&& action == DbAction::Finish
        },
        _ => unexpected,
    }
}

/// One step of setting up the database where it is not set up yet: create
/// the `todo_lists` and `todo_elements` tables where they do not exist, then
/// insert the primary list, named `Primary`, where there is no primary list.
pub fn database_schema(stage: SchemaStage, event: DbEvent) -> (r: (SchemaStage, DbAction))
    ensures
        schema_step(stage, event, r.0, r.1),
{
    match (stage, event) {
        (SchemaStage::Start, DbEvent::Begin) => (SchemaStage::CreatingLists, DbAction::Run(DbRequest::CreateListsTable)),
        (SchemaStage::CreatingLists, DbEvent::Executed) => (
            SchemaStage::CreatingElements,
            DbAction::Run(DbRequest::CreateElementsTable),
        ),
        (SchemaStage::CreatingElements, DbEvent::Executed) => (SchemaStage::CheckingPrimary, DbAction::Run(DbRequest::PrimaryLists)),
        (SchemaStage::CheckingPrimary, DbEvent::ListIds(ids)) => {
            if ids.len() == 0 {
                (
                    SchemaStage::InsertingPrimary,
                    DbAction::Run(DbRequest::InsertList { name: String::from_str("Primary"), is_primary: true }),
                )
            } else {
                (SchemaStage::Finished, DbAction::Finish)
            }
        },
        (SchemaStage::InsertingPrimary, DbEvent::Inserted(_)) => (SchemaStage::Finished, DbAction::Finish),
        _ => (SchemaStage::Failed, DbAction::Unexpected),
    }
}

/// Setting up a database that already has a primary list inserts nothing:
/// after the tables are created where missing, it finds the primary list and
/// finishes. Only where no primary list exists is one inserted.
pub proof fn lemma_schema_inserts_primary_only_when_missing(
    s1: SchemaStage,
    a1: DbAction,
    s2: SchemaStage,
    a2: DbAction,
    s3: SchemaStage,
    a3: DbAction,
    ids: Vec<i32>,
    s4: SchemaStage,
    a4: DbAction,
)
    requires
        schema_step(SchemaStage::Start, DbEvent::Begin, s1, a1),
        schema_step(s1, DbEvent::Executed, s2, a2),
        schema_step(s2, DbEvent::Executed, s3, a3),
        schema_step(s3, DbEvent::ListIds(ids), s4, a4),
    ensures
        a1 == DbAction::Run(DbRequest::CreateListsTable),
        a2 == DbAction::Run(DbRequest::CreateElementsTable),
        a3 == DbAction::Run(DbRequest::PrimaryLists),
        ids@.len() > 0 ==> s4 == SchemaStage::Finished && a4 == DbAction::Finish,
        ids@.len() == 0 <==> inserts_primary_list(a4),
{
}

/// The subcommands of the tool.
#[derive(Debug, Clone, Copy, PartialEq, Eq, Structural)]
pub enum Command {
    Add,
    AddList,
    Show,
    Remove,
    StatusComplete,
    StatusIncomplete,
}

/// The name under which a subcommand is given on the command line.
pub open spec fn command_name(c: Command) -> Seq<char> {
    match c {
        Command::Add => "add"@,
        Command::AddList => "add-list"@,
        Command::Show => "show"@,
        Command::Remove => "remove"@,
        Command::StatusComplete => "status-complete"@,
        Command::StatusIncomplete => "status-incomplete"@,
    }
}

/// Whether `name` equals the literal `literal`.
fn name_is(name: &String, literal: &str) -> (r: bool)
    ensures
        r == (name@ == literal@),
{
    let other = String::from_str(literal);
    *name == other
}

/// The subcommand that the command line named: the first of `add`,
/// `add-list`, `show`, `remove`, `status-complete` and `status-incomplete`
/// whose name it is; `None` where it named none.
pub fn select_subcommand(subcommand: Option<String>) -> (r: Option<Command>)
    ensures
        match subcommand {
            None => r is None,
            Some(name) => match r {
                Some(c) => name@ == command_name(c),
                None => forall|c: Command| name@ != #[trigger] command_name(c),
            },
        },
{
    match subcommand {
        None => None,
        Some(name) => {
            if name_is(&name, "add") {
                Some(Command::Add)
            } else if name_is(&name, "add-list") {
                Some(Command::AddList)
            } else if name_is(&name, "show") {
                Some(Command::Show)
            } else if name_is(&name, "remove") {
                Some(Command::Remove)
            } else if name_is(&name, "status-complete") {
                Some(Command::StatusComplete)
            } else if name_is(&name, "status-incomplete") {
                Some(Command::StatusIncomplete)
            } else {
                assert forall|c: Command| name@ != #[trigger] command_name(c) by {
                    match c {
                        Command::Add => {},
                        Command::AddList => {},
                        Command::Show => {},
                        Command::Remove => {},
                        Command::StatusComplete => {},
                        Command::StatusIncomplete => {},
                    }
                }
                None
            }
        },
    }
}

/// Each subcommand has a name of its own, so the name given on the command
/// line decides the subcommand.
pub proof fn lemma_command_names_distinct(a: Command, b: Command)
    ensures
        command_name(a) == command_name(b) ==> a == b,
{
    reveal_strlit("add");
    reveal_strlit("add-list");
    reveal_strlit("show");
    reveal_strlit("remove");
    reveal_strlit("status-complete");
    reveal_strlit("status-incomplete");
    if command_name(a) == command_name(b) && a != b {
        assert(command_name(a).len() == command_name(b).len());
        assert(command_name(a)[0] == command_name(b)[0]);
        assert(command_name(a)[command_name(a).len() - 1] == command_name(b)[command_name(b).len() - 1]);
        assert(command_name(a)[7] == command_name(b)[7]);
    }
}

} // verus!
