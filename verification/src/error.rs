//! Errors surfaced by row reads and index resolution.

use vstd::prelude::*;
use vstd::string::StringExecFns;

verus! {

/// Error kinds of the row read and resolution interface.
#[derive(Debug, PartialEq)]
pub enum Error {
    /// Named lookup against the name index map failed; carries the requested name.
    ColumnNotFound(String),
    /// Positional lookup exceeded the column count; carries the offending index.
    IndexOutOfRange(usize),
    /// A deferred row was read after a step had occurred without inflation
    /// having run: a protocol bug in the surrounding step loop, unrecoverable.
    InconsistentInflation,
}

impl Error {
    /// A human-readable description of the error.
    pub fn message(&self) -> (m: String)
        ensures
            self matches Error::ColumnNotFound(n) ==> m@ =~= "column not found: "@ + n@,
            self matches Error::IndexOutOfRange(_) ==> m@ == "column index out of range"@,
            self matches Error::InconsistentInflation ==> m@
                == "deferred row read after the cursor stepped without inflation"@,
    {
        match self {
            Error::ColumnNotFound(name) => {
                let mut m = String::new();
                m.append("column not found: ");
                m.append(name.as_str());
                m
            },
            Error::IndexOutOfRange(_) => String::from_str("column index out of range"),
            Error::InconsistentInflation => String::from_str(
                "deferred row read after the cursor stepped without inflation",
            ),
        }
    }
}

} // verus!
