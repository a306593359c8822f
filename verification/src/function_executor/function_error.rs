//! The error a function executor reports.

use vstd::prelude::*;

verus! {

/// The text of a failed function call, in a display form and a debug form.
pub struct SpecFunctionError {
    pub display: Seq<char>,
    pub debug: Seq<char>,
}

/// An opaque executor failure: it carries only its report text.
#[derive(Debug)]
pub struct FunctionError {
    display: String,
    debug: String,
}

impl View for FunctionError {
    type V = SpecFunctionError;

    closed spec fn view(&self) -> SpecFunctionError {
        SpecFunctionError { display: self.display@, debug: self.debug@ }
    }
}

impl FunctionError {
    /// An error carrying the given report in both forms.
    pub fn msg(message: String) -> (r: FunctionError)
        ensures
            r@.display == message@,
            r@.debug == message@,
    {
        let debug = message.clone();
        FunctionError { display: message, debug }
    }

    /// The report, as shown to a reader.
    pub fn message(&self) -> (r: String)
        ensures
            r@ == self@.display,
    {
        self.display.clone()
    }

    /// The report, in its debug form.
    pub fn debug_message(&self) -> (r: String)
        ensures
            r@ == self@.debug,
    {
        self.debug.clone()
    }
}

} // verus!
