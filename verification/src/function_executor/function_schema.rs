//! A function's declared name and argument types.

use vstd::prelude::*;

use crate::function_executor::function_argument::FunctionArgument;
use crate::function_executor::function_argument_type::FunctionArgumentType;

verus! {

/// The declared shape of a function: its name and its argument types.
#[verifier::ext_equal]
pub struct SpecSchema {
    pub name: Seq<char>,
    pub args: Seq<FunctionArgumentType>,
}

/// The declared argument types of a sequence of positions.
pub open spec fn spec_arguments_view(args: Seq<FunctionArgument>) -> Seq<FunctionArgumentType> {
    args.map_values(|a: FunctionArgument| a@)
}

/// What the registry knows of a function: its unique name and its ordered
/// argument declarations.  Immutable once constructed.
#[derive(Debug)]
pub struct FunctionSchema {
    function_name: String,
    arguments: Vec<FunctionArgument>,
}

impl View for FunctionSchema {
    type V = SpecSchema;

    closed spec fn view(&self) -> SpecSchema {
        SpecSchema { name: self.function_name@, args: spec_arguments_view(self.arguments@) }
    }
}

impl FunctionSchema {
    /// A schema with the given name and no arguments yet.  The name keys
    /// the registry, so it must not be empty.
    pub fn new(function_name: String) -> (r: FunctionSchema)
        requires
            function_name@.len() > 0,
        ensures
            r@.name == function_name@,
            r@.args.len() == 0,
    {
        proof {
            assert(spec_arguments_view(Seq::<FunctionArgument>::empty())
                =~= Seq::<FunctionArgumentType>::empty());
        }
        FunctionSchema { function_name, arguments: Vec::new() }
    }

    /// The schema with one more argument position declared at the end.
    pub fn with_argument(self, argument: FunctionArgument) -> (r: FunctionSchema)
        ensures
            r@.name == self@.name,
            r@.args == self@.args.push(argument@),
    {
        let ghost oldargs = spec_arguments_view(self.arguments@);
        let mut arguments = self.arguments;
        arguments.push(argument);
        proof {
            assert(spec_arguments_view(arguments@) =~= oldargs.push(argument@));
        }
        FunctionSchema { function_name: self.function_name, arguments }
    }

    /// The name the registry keys this function by.
    pub fn get_function_name(&self) -> (r: &String)
        ensures
            r@ == self@.name,
    {
        &self.function_name
    }

    /// The declared argument positions, in order.
    pub fn get_arguments(&self) -> (r: &Vec<FunctionArgument>)
        ensures
            spec_arguments_view(r@) == self@.args,
    {
        &self.arguments
    }
}

} // verus!
