use todo_list::command_logic::{add, add_list, mark_complete, mark_incomplete, remove, show, ShowStage};
use todo_list::database::{AnswerKind, DbAction, DbEvent, DbRequest, ElementRow, SqlValue};
use todo_list::database_structures::{AddElementStage, AddListStage, DisplayStage, ToDoElement, ToDoList};
use todo_list::decimal::{format_integer, parse_i32};
use todo_list::initialization_functions::{database_schema, select_subcommand, Command, SchemaStage};
use todo_list::status::{status_label, Status};

/// Drives `ToDoElement::add_to_database` with the answers a database gives:
/// the ids of the lists found and the id of the inserted row. Returns the
/// insert request that was made.
fn store_element(element: &mut ToDoElement, list_name: Option<String>, list_ids: Vec<i32>, row_id: i64) -> DbRequest {
    let (stage, action) = element.add_to_database(AddElementStage::Start { list_name }, DbEvent::Begin);
    assert!(matches!(action, DbAction::Run(_)));
    let (stage, action) = element.add_to_database(stage, DbEvent::ListIds(list_ids));
    let insert = match action {
        DbAction::Run(request) => request,
        other => panic!("unexpected action {:?}", other),
    };
    let (stage, action) = element.add_to_database(stage, DbEvent::Inserted(row_id));
    assert!(matches!(stage, AddElementStage::Finished));
    assert!(matches!(action, DbAction::Finish));
    insert
}

fn row(id: i32, list_id: i32, task: &str, status: i32) -> ElementRow {
    ElementRow { id, list_id, task: task.to_string(), status }
}

#[test]
fn test_todo_element() {
    let mut test_element: ToDoElement = ToDoElement::new("test_todo");

    assert!(test_element.get_task() == "test_todo");
    assert!(test_element.get_id() == None);
    assert!(test_element.get_status() == &Status::Incomplete);
    assert!(test_element.get_list_id() == None);

    // A freshly set up database holds the primary list with id 1, and the
    // first element inserted gets row id 1.
    let insert = store_element(&mut test_element, None, vec![1], 1);
    match insert {
        DbRequest::InsertElement { list_id, task, status } => {
            assert!(list_id == 1);
            assert!(task == "test_todo");
            assert!(status == 0);
        }
        other => panic!("unexpected request {:?}", other),
    }

    assert!(test_element.get_id().unwrap() == 1);
    assert!(test_element.get_list_id().unwrap() == 1);
}

#[test]
fn test_remove_command() {
    match remove("1") {
        DbRequest::DeleteElement { id } => assert_eq!(id, 1),
        other => panic!("unexpected result {:?}", other),
    }
}

#[test]
fn lookup_without_name_asks_for_all_lists() {
    let mut element = ToDoElement::new("x");
    let (_, action) = element.add_to_database(AddElementStage::Start { list_name: None }, DbEvent::Begin);
    assert!(matches!(action, DbAction::Run(DbRequest::AllLists)));
}

#[test]
fn element_added_to_named_list_records_that_list() {
    let mut element = ToDoElement::new("buy milk");
    let (_, action) = element.add_to_database(
        AddElementStage::Start { list_name: Some("groceries".to_string()) },
        DbEvent::Begin,
    );
    match action {
        DbAction::Run(DbRequest::FindListByName { name }) => assert_eq!(name, "groceries"),
        other => panic!("unexpected action {:?}", other),
    }
    let insert = store_element(&mut element, Some("groceries".to_string()), vec![7, 9], 42);
    match insert {
        DbRequest::InsertElement { list_id, task, status } => {
            assert_eq!(list_id, 7);
            assert_eq!(task, "buy milk");
            assert_eq!(status, 0);
        }
        other => panic!("unexpected request {:?}", other),
    }
    assert_eq!(element.get_id(), Some(42));
    assert_eq!(element.get_list_id(), Some(7));
}

#[test]
fn element_added_without_name_records_first_list() {
    let mut element = ToDoElement::new("x");
    let insert = store_element(&mut element, None, vec![5, 1], 3);
    match insert {
        DbRequest::InsertElement { list_id, .. } => assert_eq!(list_id, 5),
        other => panic!("unexpected request {:?}", other),
    }
    assert_eq!(element.get_id(), Some(3));
    assert_eq!(element.get_list_id(), Some(5));
}

#[test]
fn element_step_out_of_order_fails() {
    let mut element = ToDoElement::new("x");
    let (stage, action) = element.add_to_database(AddElementStage::Start { list_name: None }, DbEvent::Inserted(4));
    assert!(matches!(stage, AddElementStage::Failed));
    assert!(matches!(action, DbAction::Unexpected));
    assert_eq!(element.get_id(), None);
}

#[test]
fn status_equality() {
    assert!(Status::Complete == Status::Complete);
    assert!(Status::Incomplete == Status::Incomplete);
    assert!(Status::Complete != Status::Incomplete);
    assert_eq!(Status::Incomplete.code(), 0);
    assert_eq!(Status::Complete.code(), 1);
}

#[test]
fn status_labels() {
    assert_eq!(status_label(0), "[ ]");
    assert_eq!(status_label(1), format!("[{}]", std::char::from_u32(0x2713).unwrap()));
    assert_eq!(status_label(2), "error");
    assert_eq!(status_label(-1), "error");
}

#[test]
fn list_is_stored_once() {
    let mut list = ToDoList::new("work");
    assert_eq!(list.id, None);
    assert_eq!(list.name, "work");
    assert!(!list.is_primary);
    let (stage, action) = list.add_to_database(AddListStage::Start, DbEvent::Begin);
    match action {
        DbAction::Run(DbRequest::InsertList { name, is_primary }) => {
            assert_eq!(name, "work");
            assert!(!is_primary);
        }
        other => panic!("unexpected action {:?}", other),
    }
    let (stage, action) = list.add_to_database(stage, DbEvent::Inserted(2));
    assert!(matches!(stage, AddListStage::Finished));
    assert!(matches!(action, DbAction::Finish));
    assert_eq!(list.id, Some(2));
    // A stored list is not admitted for storing again; the program refuses it
    // before asking the library.
    assert!(list.id.is_some());
}

#[test]
fn display_list_prints_rows() {
    let mut list = ToDoList::new("work");
    list.id = Some(2);
    let (stage, action) = list.display_list(DisplayStage::Start, DbEvent::Begin);
    match action {
        DbAction::Run(DbRequest::ElementsOfList { list_id, fresh_connection }) => {
            assert_eq!(list_id, 2);
            assert!(!fresh_connection);
        }
        other => panic!("unexpected action {:?}", other),
    }
    let rows = vec![row(3, 2, "write report", 0), row(4, 2, "send mail", 1)];
    let (stage, action) = list.display_list(stage, DbEvent::Rows(rows));
    assert!(matches!(stage, DisplayStage::Finished));
    match action {
        DbAction::Print(lines) => {
            assert_eq!(
                lines,
                vec![
                    "List Name: work\n".to_string(),
                    "id: 3, list_id: 2, task: write report, status: 0\n ".to_string(),
                    "id: 4, list_id: 2, task: send mail, status: 1\n ".to_string(),
                ]
            );
        }
        other => panic!("unexpected action {:?}", other),
    }
}

#[test]
fn show_named_list() {
    let (stage, action) = show(ShowStage::Start { list_name: Some("work".to_string()) }, DbEvent::Begin);
    match action {
        DbAction::Run(DbRequest::FindListByName { name }) => assert_eq!(name, "work"),
        other => panic!("unexpected action {:?}", other),
    }
    let (stage, action) = show(stage, DbEvent::ListIds(vec![2]));
    match action {
        DbAction::Run(DbRequest::ElementsOfList { list_id, fresh_connection }) => {
            assert_eq!(list_id, 2);
            assert!(fresh_connection);
        }
        other => panic!("unexpected action {:?}", other),
    }
    let rows = vec![row(3, 2, "write report", 0), row(-4, 2, "send mail", 1), row(9, 2, "odd", 7)];
    let (stage, action) = show(stage, DbEvent::Rows(rows));
    assert!(matches!(stage, ShowStage::Finished));
    let mark = std::char::from_u32(0x2713).unwrap();
    match action {
        DbAction::Print(lines) => {
            assert_eq!(
                lines,
                vec![
                    format!("List Name: {}\n", "work"),
                    format!("({0}) {1}. {2}. {3}", 3, 1, "write report", "[ ]"),
                    format!("({0}) {1}. {2}. {3}", -4, 2, "send mail", format!("[{}]", mark)),
                    format!("({0}) {1}. {2}. {3}", 9, 3, "odd", "error"),
                ]
            );
        }
        other => panic!("unexpected action {:?}", other),
    }
}

#[test]
fn show_primary_list() {
    let (stage, action) = show(ShowStage::Start { list_name: None }, DbEvent::Begin);
    match action {
        DbAction::Run(DbRequest::ElementsOfList { list_id, fresh_connection }) => {
            assert_eq!(list_id, 1);
            assert!(!fresh_connection);
        }
        other => panic!("unexpected action {:?}", other),
    }
    let (_, action) = show(stage, DbEvent::Rows(vec![]));
    match action {
        DbAction::Print(lines) => assert_eq!(lines, vec!["List Name: Primary\n".to_string()]),
        other => panic!("unexpected action {:?}", other),
    }
}

#[test]
fn show_out_of_order_fails() {
    let (stage, action) = show(ShowStage::Finished, DbEvent::Begin);
    assert!(matches!(stage, ShowStage::Failed));
    assert!(matches!(action, DbAction::Unexpected));
}

#[test]
fn add_command() {
    let (element, stage) = add("task", Some("work".to_string()));
    assert_eq!(element.get_task(), "task");
    assert_eq!(element.get_id(), None);
    assert_eq!(element.get_list_id(), None);
    assert!(matches!(stage, AddElementStage::Start { list_name: Some(ref n) } if n == "work"));
    let (element, stage) = add("task", None);
    assert_eq!(element.get_task(), "task");
    assert!(matches!(stage, AddElementStage::Start { list_name: None }));
}

#[test]
fn add_without_list_name_goes_to_first_list() {
    let (mut element, stage) = add("task", None);
    let (stage, action) = element.add_to_database(stage, DbEvent::Begin);
    assert!(matches!(action, DbAction::Run(DbRequest::AllLists)));
    let (stage, action) = element.add_to_database(stage, DbEvent::ListIds(vec![1, 2]));
    assert!(matches!(action, DbAction::Run(DbRequest::InsertElement { list_id: 1, status: 0, .. })));
    let (_, action) = element.add_to_database(stage, DbEvent::Inserted(4));
    assert!(matches!(action, DbAction::Finish));
    assert_eq!(element.get_id(), Some(4));
    assert_eq!(element.get_list_id(), Some(1));
}

#[test]
fn add_list_command() {
    let (list, stage) = add_list("work");
    assert_eq!(list.name, "work");
    assert_eq!(list.id, None);
    assert!(!list.is_primary);
    assert!(matches!(stage, AddListStage::Start));
}

#[test]
fn element_id_commands() {
    assert!(matches!(remove("12"), DbRequest::DeleteElement { id: 12 }));
    assert!(matches!(remove("+12"), DbRequest::DeleteElement { id: 12 }));
    assert!(matches!(mark_complete("5"), DbRequest::SetElementStatus { id: 5, status: 1 }));
    assert!(matches!(mark_incomplete("-5"), DbRequest::SetElementStatus { id: -5, status: 0 }));
}

#[test]
fn shown_id_reads_back() {
    for id in [0i32, 1, 9, 10, 99, 100, 12345, -1, -10, i32::MAX, i32::MIN] {
        let text = format_integer(id as i64);
        assert_eq!(parse_i32(&text), Some(id));
        assert!(matches!(remove(&text), DbRequest::DeleteElement { id: got } if got == id));
    }
}

#[test]
fn format_integer_matches_display() {
    for n in [0i64, 1, 7, 10, 42, 100, 999, 1000, -1, -9, -10, -12345, i64::MAX, i64::MIN, 2147483648, -2147483649] {
        assert_eq!(format_integer(n), n.to_string());
    }
}

#[test]
fn parse_i32_matches_from_str() {
    let inputs = [
        "0", "7", "42", "+42", "-42", "007", "-0", "+0", "2147483647", "2147483648", "-2147483648",
        "-2147483649", "99999999999999999999", "", "+", "-", "+-1", "--1", " 1", "1 ", "1a", "a1", "1.0",
        "\u{0663}", "0x10", "-00000000000000000001",
    ];
    for s in inputs {
        assert_eq!(parse_i32(s), s.parse::<i32>().ok(), "input {:?}", s);
    }
}

/// Runs the set-up against a database whose primary lists are `primary`,
/// and returns the requests it made.
fn run_schema(primary: Vec<i32>) -> Vec<DbRequest> {
    let mut requests = Vec::new();
    let mut stage = SchemaStage::Start;
    let mut event = DbEvent::Begin;
    let mut primary = Some(primary);
    loop {
        let (next, action) = database_schema(stage, event);
        stage = next;
        match action {
            DbAction::Run(request) => {
                event = match &request {
                    DbRequest::CreateListsTable | DbRequest::CreateElementsTable => DbEvent::Executed,
                    DbRequest::PrimaryLists => DbEvent::ListIds(primary.take().unwrap()),
                    DbRequest::InsertList { .. } => DbEvent::Inserted(1),
                    other => panic!("unexpected request {:?}", other),
                };
                requests.push(request);
            }
            DbAction::Finish => break,
            other => panic!("unexpected action {:?}", other),
        }
    }
    assert!(matches!(stage, SchemaStage::Finished));
    requests
}

#[test]
fn schema_on_new_database_inserts_primary_list() {
    let requests = run_schema(vec![]);
    assert_eq!(requests.len(), 4);
    assert!(matches!(requests[0], DbRequest::CreateListsTable));
    assert!(matches!(requests[1], DbRequest::CreateElementsTable));
    assert!(matches!(requests[2], DbRequest::PrimaryLists));
    match &requests[3] {
        DbRequest::InsertList { name, is_primary } => {
            assert_eq!(name, "Primary");
            assert!(*is_primary);
        }
        other => panic!("unexpected request {:?}", other),
    }
}

#[test]
fn schema_on_set_up_database_inserts_nothing() {
    let requests = run_schema(vec![1]);
    assert_eq!(requests.len(), 3);
    assert!(requests.iter().all(|r| !matches!(r, DbRequest::InsertList { .. })));
}

#[test]
fn statements_of_requests() {
    let s = DbRequest::SetElementStatus { id: 7, status: 1 }.statement();
    assert_eq!(s.sql, "UPDATE todo_elements SET status = $1 WHERE id = $2");
    assert!(matches!(s.binds[..], [SqlValue::Integer(1), SqlValue::Integer(7)]));
    assert_eq!(s.answer, AnswerKind::Nothing);
    let s = DbRequest::InsertElement { list_id: 2, task: "t".to_string(), status: 0 }.statement();
    assert_eq!(s.sql, "INSERT INTO todo_elements (list_id, task, status) VALUES ($1, $2, $3)");
    assert!(matches!(&s.binds[..], [SqlValue::Integer(2), SqlValue::Text(t), SqlValue::Integer(0)] if t == "t"));
    assert_eq!(s.answer, AnswerKind::RowId);
    let s = DbRequest::ElementsOfList { list_id: 3, fresh_connection: true }.statement();
    assert_eq!(s.sql, "SELECT * FROM todo_elements WHERE list_id = $1");
    assert!(s.fresh_connection);
    assert_eq!(s.answer, AnswerKind::ElementRows);
    let s = DbRequest::PrimaryLists.statement();
    assert!(matches!(s.binds[..], [SqlValue::Boolean(true)]));
    assert_eq!(s.answer, AnswerKind::ListIds);
    let s = DbRequest::CreateListsTable.statement();
    assert!(s.binds.is_empty());
    assert!(s.sql.starts_with("CREATE TABLE IF NOT EXISTS todo_lists"));
}

#[test]
fn subcommand_selection() {
    let cases = [
        ("add", Command::Add),
        ("add-list", Command::AddList),
        ("show", Command::Show),
        ("remove", Command::Remove),
        ("status-complete", Command::StatusComplete),
        ("status-incomplete", Command::StatusIncomplete),
    ];
    for (name, command) in cases {
        assert_eq!(select_subcommand(Some(name.to_string())), Some(command));
    }
    assert_eq!(select_subcommand(None), None);
    assert_eq!(select_subcommand(Some("addl".to_string())), None);
}
