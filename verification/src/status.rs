//! Completion status of a to-do element and its integer encoding in the
//! database (`0` incomplete, `1` complete).

use vstd::prelude::*;
use vstd::std_specs::cmp::PartialEqSpec;

verus! {

/// Completion status of a to-do element.
#[derive(Debug, Clone, Copy)]
pub enum Status {
    Complete,
    Incomplete,
}

impl Status {
    /// The integer stored in the `status` column for this status.
    pub open spec fn spec_code(self) -> int {
        match self {
            Status::Incomplete => 0,
            Status::Complete => 1,
        }
    }

    /// The integer stored in the `status` column for this status.
    pub fn code(&self) -> (c: i32)
        ensures
            c == self.spec_code(),
    {
        match self {
            Status::Incomplete => 0,
            Status::Complete => 1,
        }
    }
}

impl PartialEq for Status {
    fn eq(&self, other: &Self) -> (r: bool) {
        let value1: i32 = self.code();
        let value2: i32 = other.code();
        value2 == value1
    }
}

impl vstd::std_specs::cmp::PartialEqSpecImpl for Status {
    open spec fn obeys_eq_spec() -> bool {
        true
    }

    open spec fn eq_spec(&self, other: &Self) -> bool {
        other.spec_code() == self.spec_code()
    }
}

/// The mark that `show` prints for a status column holding `code`.
pub open spec fn status_label_text(code: int) -> Seq<char> {
    if code == 0 {
        "[ ]"@
    } else if code == 1 {
        "[\u{2713}]"@
    } else {
        "error"@
    }
}

/// The mark that `show` prints for a status column holding `code`: `[ ]`
/// for incomplete, `[✓]` for complete, `error` for anything else.
pub fn status_label(code: i32) -> (r: &'static str)
    ensures
        r@ == status_label_text(code as int),
{
    if code == 0 {
        "[ ]"
    } else if code == 1 {
        "[\u{2713}]"
    } else {
        "error"
    }
}

/// Two statuses are equal (`==`) exactly when they are the same variant,
/// that is when they are stored as the same integer.
pub proof fn lemma_status_eq_is_identity(a: Status, b: Status)
    ensures
        a.eq_spec(&b) <==> a == b,
        a.eq_spec(&b) <==> a.spec_code() == b.spec_code(),
{
}

/// A status read back from the integer it is stored as shows as its own
/// mark: incomplete as `[ ]`, complete as `[✓]`.
pub proof fn lemma_stored_status_shows_its_mark(s: Status)
    ensures
        status_label_text(s.spec_code()) == (match s {
            Status::Incomplete => "[ ]"@,
            Status::Complete => "[\u{2713}]"@,
        }),
{
}

} // verus!
