//! One declared argument position of a function schema.

use vstd::prelude::*;

use crate::function_executor::function_argument_type::FunctionArgumentType;

verus! {

/// The declared shape of one argument position.
#[derive(Debug, Clone, Copy)]
pub struct FunctionArgument {
    argument_type: FunctionArgumentType,
}

impl View for FunctionArgument {
    type V = FunctionArgumentType;

    closed spec fn view(&self) -> FunctionArgumentType {
        self.argument_type
    }
}

impl FunctionArgument {
    /// An argument position declared as a string.
    pub fn string() -> (r: FunctionArgument)
        ensures
            r@ == FunctionArgumentType::String,
    {
        FunctionArgument { argument_type: FunctionArgumentType::String }
    }

    /// An argument position declared as a boolean.
    pub fn bool() -> (r: FunctionArgument)
        ensures
            r@ == FunctionArgumentType::Bool,
    {
        FunctionArgument { argument_type: FunctionArgumentType::Bool }
    }

    /// An argument position declared as an unsigned integer.
    pub fn uint() -> (r: FunctionArgument)
        ensures
            r@ == FunctionArgumentType::UInt,
    {
        FunctionArgument { argument_type: FunctionArgumentType::UInt }
    }

    /// An argument position declared as a signed integer.
    pub fn signed() -> (r: FunctionArgument)
        ensures
            r@ == FunctionArgumentType::Int,
    {
        FunctionArgument { argument_type: FunctionArgumentType::Int }
    }

    /// The declared type.
    pub(crate) fn get_type(&self) -> (r: &FunctionArgumentType)
        ensures
            *r == self@,
    {
        &self.argument_type
    }
}

} // verus!
