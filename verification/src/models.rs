//! The report that every dashboard operation hands back.

use vstd::prelude::*;

verus! {

/// Outcome of one operation on a distribution: whether it succeeded, the
/// text it produced, the error text when it failed, and an optional payload.
#[derive(Debug, Clone, PartialEq, Eq)]
pub struct WslCommandResult<T> {
    pub success: bool,
    pub output: String,
    pub error: Option<String>,
    pub data: Option<T>,
}

/// The characters of an optional text.
pub open spec fn opt_text(t: Option<String>) -> Option<Seq<char>> {
    match t {
        Some(s) => Some(s@),
        None => None,
    }
}

/// What a report says, by the characters of its texts (its payload aside).
pub struct Report {
    pub success: bool,
    pub output: Seq<char>,
    pub error: Option<Seq<char>>,
}

impl<T> WslCommandResult<T> {
    /// The report's flag and texts.
    pub open spec fn report(&self) -> Report {
        Report { success: self.success, output: self.output@, error: self.error_text() }
    }

    /// The error text of the report, by its characters.
    pub open spec fn error_text(&self) -> Option<Seq<char>> {
        opt_text(self.error)
    }

    /// A successful report with the given output and payload.
    pub fn success(output: String, data: Option<T>) -> (res: Self)
        ensures
            res.success,
            res.output@ == output@,
            res.error is None,
            res.data == data,
    {
        WslCommandResult { success: true, output, error: None, data }
    }

    /// A failed report with the given output and error text; it carries no payload.
    pub fn error(output: String, error: String) -> (res: Self)
        ensures
            !res.success,
            res.output@ == output@,
            res.error_text() == Some(error@),
            res.data is None,
    {
        WslCommandResult { success: false, output, error: Some(error), data: None }
    }
}

} // verus!
