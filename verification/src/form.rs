//! Field-level problems attached to a failed form submission. Order is
//! preserved for display and is stable for a given failure cause.

use vstd::prelude::*;

verus! {

/// One entry of a problem list: either a complaint about a single form
/// field, or a server-side error that concerns the submission as a whole.
#[derive(Debug, PartialEq, Eq)]
pub enum Problem {
    InvalidEntry(String, String),
    ServerError(String),
}

impl Clone for Problem {
    fn clone(&self) -> (res: Self)
        ensures
            res == *self,
    {
        match self {
            Problem::InvalidEntry(field, message) => {
                Problem::InvalidEntry(field.clone(), message.clone())
            },
            Problem::ServerError(message) => Problem::ServerError(message.clone()),
        }
    }
}

/// The text of a problem, as shown next to the form.
pub open spec fn spec_problem_message(p: Problem) -> Seq<char> {
    match p {
        Problem::InvalidEntry(_, message) => message@,
        Problem::ServerError(message) => message@,
    }
}

impl Problem {
    /// The text of this problem, as shown next to the form.
    pub fn message(&self) -> (res: &String)
        ensures
            res@ == spec_problem_message(*self),
    {
        match self {
            Problem::InvalidEntry(_, message) => message,
            Problem::ServerError(message) => message,
        }
    }
}

/// The messages of a problem list, in display order.
pub open spec fn spec_problem_messages(ps: Seq<Problem>) -> Seq<Seq<char>> {
    ps.map_values(|p: Problem| spec_problem_message(p))
}

} // verus!
