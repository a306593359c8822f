//! The error raised when a call argument fits no literal shape.

use vstd::prelude::*;

verus! {

/// A function-call argument fits no literal shape; carries the span the
/// scanner consumed and the input that followed it.
#[derive(Debug)]
pub struct InvalidArgumentTemplate {
    template: String,
    input: String,
}

/// The text of an invalid-argument report.
pub open spec fn spec_invalid_argument_message(template: Seq<char>, input: Seq<char>) -> Seq<char> {
    "Invalid argument `"@ + template + "` in input `"@ + input + "`"@
}

impl InvalidArgumentTemplate {
    pub(crate) fn new(template: String, input: String) -> (r: InvalidArgumentTemplate)
        ensures
            r@ == (template@, input@),
    {
        InvalidArgumentTemplate { template, input }
    }

    /// The report: the consumed span and the remaining input.
    pub fn message(&self) -> (r: String)
        ensures
            r@ == spec_invalid_argument_message(self@.0, self@.1),
    {
        let mut m = String::new();
        m.push_str("Invalid argument `");
        m.push_str(self.template.as_str());
        m.push_str("` in input `");
        m.push_str(self.input.as_str());
        m.push_str("`");
        m
    }
}

impl View for InvalidArgumentTemplate {
    type V = (Seq<char>, Seq<char>);

    closed spec fn view(&self) -> (Seq<char>, Seq<char>) {
        (self.template@, self.input@)
    }
}

} // verus!
