//! The error raised when the remaining input fits no production.

use vstd::prelude::*;

verus! {

/// The remaining input fits no production of the grammar.
#[derive(Debug)]
pub struct UnexpectedInputError {
    input: String,
}

/// The text of an unexpected-input report.
pub open spec fn spec_unexpected_input_message(input: Seq<char>) -> Seq<char> {
    "Unexpected input `"@ + input + "`"@
}

impl UnexpectedInputError {
    pub(crate) fn new(input: String) -> (r: UnexpectedInputError)
        ensures
            r@ == input@,
    {
        UnexpectedInputError { input }
    }

    /// The report: the input that fit nothing.
    pub fn message(&self) -> (r: String)
        ensures
            r@ == spec_unexpected_input_message(self@),
    {
        let mut m = String::new();
        m.push_str("Unexpected input `");
        m.push_str(self.input.as_str());
        m.push_str("`");
        m
    }
}

impl View for UnexpectedInputError {
    type V = Seq<char>;

    closed spec fn view(&self) -> Seq<char> {
        self.input@
    }
}

} // verus!
