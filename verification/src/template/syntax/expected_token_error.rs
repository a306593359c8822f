//! The error raised when a fixed token was expected and something else came.

use vstd::prelude::*;

verus! {

/// A fixed token was expected at the front of the remaining input.
#[derive(Debug)]
pub struct ExpectedTokenError {
    token: String,
    input: String,
}

/// The text of an expected-token report.
pub open spec fn spec_expected_token_message(token: Seq<char>, input: Seq<char>) -> Seq<char> {
    "Expected token `"@ + token + "` in `"@ + input + "`"@
}

impl ExpectedTokenError {
    pub(crate) fn new(token: String, input: String) -> (r: ExpectedTokenError)
        ensures
            r@ == (token@, input@),
    {
        ExpectedTokenError { token, input }
    }

    /// The report: the expected token and the input it was missing from.
    pub fn message(&self) -> (r: String)
        ensures
            r@ == spec_expected_token_message(self@.0, self@.1),
    {
        let mut m = String::new();
        m.push_str("Expected token `");
        m.push_str(self.token.as_str());
        m.push_str("` in `");
        m.push_str(self.input.as_str());
        m.push_str("`");
        m
    }
}

impl View for ExpectedTokenError {
    type V = (Seq<char>, Seq<char>);

    closed spec fn view(&self) -> (Seq<char>, Seq<char>) {
        (self.token@, self.input@)
    }
}

} // verus!
