//! Conversion of a literal argument token into a runtime value.

use vstd::prelude::*;

use crate::function_executor::value::{SpecValue, Value};
use crate::template::syntax::function_call_argument_token::FunctionCallArgumentToken;
use crate::template::syntax::grammar::SpecArg;

verus! {

/// The runtime value a literal argument stands for.
pub open spec fn spec_arg_value(a: SpecArg) -> SpecValue {
    match a {
        SpecArg::String(s) => SpecValue::String(s),
        SpecArg::Bool(b) => SpecValue::Bool(b),
        SpecArg::UInt(n) => SpecValue::UInt(n),
        SpecArg::Int(n) => SpecValue::Int(n),
    }
}

/// The shapes of a sequence of literal arguments, as runtime values.
pub open spec fn spec_arg_values(args: Seq<SpecArg>) -> Seq<SpecValue> {
    args.map_values(|a: SpecArg| spec_arg_value(a))
}

/// Builds the runtime value a literal argument stands for.
pub fn convert_function_argument(argument: &FunctionCallArgumentToken) -> (r: Value)
    ensures
        r@ == spec_arg_value(argument@),
{
    match argument {
        FunctionCallArgumentToken::String(s) => Value::String(s.clone()),
        FunctionCallArgumentToken::Bool(b) => Value::Bool(*b),
        FunctionCallArgumentToken::UInt(n) => Value::UInt(*n),
        FunctionCallArgumentToken::Int(n) => Value::Int(*n),
    }
}

} // verus!
