//! The body of an expression: a field path and its pipeline.

use vstd::prelude::*;

use crate::template::syntax::field_path::FieldPath;
use crate::template::syntax::function_call_token::FunctionCallToken;
use crate::template::syntax::grammar::{SpecCall, SpecFieldRead};

verus! {

/// The shapes of a sequence of call tokens.
pub open spec fn spec_calls_view(calls: Seq<FunctionCallToken>) -> Seq<SpecCall> {
    calls.map_values(|c: FunctionCallToken| c@)
}

/// A field read with its pipeline of function calls.
pub struct FieldReadToken {
    path: FieldPath,
    function_calls: Vec<FunctionCallToken>,
}

impl View for FieldReadToken {
    type V = SpecFieldRead;

    closed spec fn view(&self) -> SpecFieldRead {
        SpecFieldRead { path: self.path@, calls: spec_calls_view(self.function_calls@) }
    }
}

impl FieldReadToken {
    /// Packs a path and a pipeline into one token.
    pub fn new(path: FieldPath, function_calls: Vec<FunctionCallToken>) -> (r: FieldReadToken)
        ensures
            r@ == (SpecFieldRead { path: path@, calls: spec_calls_view(function_calls@) }),
    {
        FieldReadToken { path, function_calls }
    }

    /// The field path.
    pub fn get_path(&self) -> (r: &FieldPath)
        ensures
            r@ == self@.path,
    {
        &self.path
    }

    /// The pipeline, in application order.
    pub fn get_function_calls(&self) -> (r: &Vec<FunctionCallToken>)
        ensures
            spec_calls_view(r@) == self@.calls,
    {
        &self.function_calls
    }
}

} // verus!
