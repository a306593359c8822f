//! The error raised when a literal argument's type contradicts the schema.

use vstd::prelude::*;

verus! {

/// A call site handed a literal whose type differs from the declared one;
/// carries the function's name and the zero-based offending position.
#[derive(Debug)]
pub struct ArgumentTypesDifferError {
    function_name: String,
    argument_position: usize,
}

impl View for ArgumentTypesDifferError {
    type V = (Seq<char>, int);

    closed spec fn view(&self) -> (Seq<char>, int) {
        (self.function_name@, self.argument_position as int)
    }
}

impl ArgumentTypesDifferError {
    pub(crate) fn new(function_name: String, argument_position: usize) -> (r: ArgumentTypesDifferError)
        ensures
            r@ == (function_name@, argument_position as int),
    {
        ArgumentTypesDifferError { function_name, argument_position }
    }

    /// The name of the function whose call site failed.
    pub fn get_function_name(&self) -> (r: &String)
        ensures
            r@ == self@.0,
    {
        &self.function_name
    }

    /// The offending argument position, counted from zero.
    pub fn get_argument_position(&self) -> (r: usize)
        ensures
            r as int == self@.1,
    {
        self.argument_position
    }
}

} // verus!
