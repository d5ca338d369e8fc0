//! The text the tool prints about a list and its elements.

use vstd::prelude::*;
use crate::database::ElementRow;
use crate::decimal::{decimal_text, format_integer};
use crate::status::{status_label, status_label_text};

verus! {

/// The heading printed above the elements of a list.
pub open spec fn list_header_text(name: Seq<char>) -> Seq<char> {
    "List Name: "@ + name + "\n"@
}

/// How `display_list` prints one element row.
pub open spec fn display_row_text(row: ElementRow) -> Seq<char> {
    "id: "@ + decimal_text(row.id as int) + ", list_id: "@ + decimal_text(row.list_id as int)
        + ", task: "@ + row.task@ + ", status: "@ + decimal_text(row.status as int) + "\n "@
}

/// How `show` prints the element row at `position` (counted from 1).
pub open spec fn show_row_text(row: ElementRow, position: int) -> Seq<char> {
    "("@ + decimal_text(row.id as int) + ") "@ + decimal_text(position) + ". "@ + row.task@
        + ". "@ + status_label_text(row.status as int)
}

/// The heading printed above the elements of the list named `name`.
pub fn list_header(name: &str) -> (r: String)
    ensures
        r@ == list_header_text(name@),
{
    let mut s = String::new();
    s.append("List Name: ");
    s.append(name);
    s.append("\n");
    assert(s@ =~= list_header_text(name@));
    s
}

/// One element row as `display_list` prints it.
pub fn display_row_line(row: &ElementRow) -> (r: String)
    ensures
        r@ == display_row_text(*row),
{
    let mut s = String::new();
    s.append("id: ");
    let id = format_integer(row.id as i64);
    s.append(id.as_str());
    s.append(", list_id: ");
    let list_id = format_integer(row.list_id as i64);
    s.append(list_id.as_str());
    s.append(", task: ");
    s.append(row.task.as_str());
    s.append(", status: ");
    let status = format_integer(row.status as i64);
    s.append(status.as_str());
    s.append("\n ");
    assert(s@ =~= display_row_text(*row));
    s
}

/// One element row as `show` prints it, at `position` in the list.
pub fn show_row_line(row: &ElementRow, position: i64) -> (r: String)
    ensures
        r@ == show_row_text(*row, position as int),
{
    let mut s = String::new();
    s.append("(");
    let id = format_integer(row.id as i64);
    s.append(id.as_str());
    s.append(") ");
    let pos = format_integer(position);
    s.append(pos.as_str());
    s.append(". ");
    s.append(row.task.as_str());
    s.append(". ");
    s.append(status_label(row.status));
    assert(s@ =~= show_row_text(*row, position as int));
    s
}

/// The lines `display_list` prints for the list named `name` holding `rows`:
/// the heading, then one line per row in the order given.
pub fn display_lines(name: &str, rows: &Vec<ElementRow>) -> (lines: Vec<String>)
    ensures
        lines@.len() == rows@.len() + 1,
        lines@[0]@ == list_header_text(name@),
        forall|i: int| 0 <= i < rows@.len() ==> #[trigger] lines@[i + 1]@ == display_row_text(rows@[i]),
{
    let mut lines: Vec<String> = Vec::new();
    lines.push(list_header(name));
    let mut i: usize = 0;
    while i < rows.len()
        invariant
            i <= rows@.len(),
            lines@.len() == i + 1,
            lines@[0]@ == list_header_text(name@),
            forall|j: int| 0 <= j < i ==> #[trigger] lines@[j + 1]@ == display_row_text(rows@[j]),
        decreases rows@.len() - i,
    {
        lines.push(display_row_line(&rows[i]));
        i = i + 1;
    }
    lines
}

/// The lines `show` prints for the list named `name` holding `rows`: the
/// heading, then one line per row in the order given, numbered from 1.
pub fn show_lines(name: &str, rows: &Vec<ElementRow>) -> (lines: Vec<String>)
    requires
        rows@.len() < i32::MAX,
    ensures
        lines@.len() == rows@.len() + 1,
        lines@[0]@ == list_header_text(name@),
        forall|i: int| 0 <= i < rows@.len() ==> #[trigger] lines@[i + 1]@ == show_row_text(rows@[i], i + 1),
{
    let mut lines: Vec<String> = Vec::new();
    lines.push(list_header(name));
    let mut i: usize = 0;
    while i < rows.len()
        invariant
            i <= rows@.len(),
            rows@.len() < i32::MAX,
            lines@.len() == i + 1,
            lines@[0]@ == list_header_text(name@),
            forall|j: int| 0 <= j < i ==> #[trigger] lines@[j + 1]@ == show_row_text(rows@[j], j + 1),
        decreases rows@.len() - i,
    {
        let position: i64 = (i + 1) as i64;
        lines.push(show_row_line(&rows[i], position));
        i = i + 1;
    }
    lines
}

} // verus!
