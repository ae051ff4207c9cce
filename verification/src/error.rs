//! The ways in which an operation of this library fails.

use crate::text::{decimal, push_decimal};
use vstd::prelude::*;
use vstd::string::*;

verus! {

/// A failure, returned to the caller as it is: nothing is retried.
#[derive(Debug, Clone, Copy, PartialEq, Eq, Structural)]
pub enum DbError {
    /// The stored text is malformed: no header, a row with the wrong number
    /// of fields, or a date that is not written as `YYYY-MM-DD`.
    Format,
    /// A position that is not in the collection; it holds that position.
    Index(usize),
}

impl DbError {
    /// What the failure says of itself.
    pub open spec fn message_text(self) -> Seq<char> {
        match self {
            DbError::Format => "Malformed record"@,
            DbError::Index(index) => "Index out of bounds: "@ + decimal(index as nat),
        }
    }

    /// The message of the failure; for a position out of range it ends
    /// with that position.
    pub fn message(&self) -> (r: String)
        ensures
            r@ == self.message_text(),
    {
        match self {
            DbError::Format => "Malformed record".to_owned(),
            DbError::Index(index) => {
                let mut out = "Index out of bounds: ".to_owned();
                push_decimal(&mut out, *index as u64);
                out
            },
        }
    }
}

} // verus!
