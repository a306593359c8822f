//! The boolean functions of the standard library.

use vstd::prelude::*;

use crate::function_executor::function_argument::FunctionArgument;
use crate::function_executor::function_error::{FunctionError, SpecFunctionError};
use crate::function_executor::function_executor::{spec_values_view, FunctionExecutor};
use crate::function_executor::function_schema::{FunctionSchema, SpecSchema};
use crate::function_executor::value::{spec_cast_error, SpecValue, Value};

verus! {

/// The text of a boolean.
pub open spec fn spec_bool_text(b: bool) -> Seq<char> {
    if b {
        "true"@
    } else {
        "false"@
    }
}

/// `bool:to_string` — the words `true` and `false`.
pub struct ToString;

impl FunctionExecutor for ToString {
    open spec fn spec_schema(&self) -> SpecSchema {
        SpecSchema { name: "bool:to_string"@, args: Seq::empty() }
    }

    open spec fn spec_call(&self, input: SpecValue, args: Seq<SpecValue>) -> Result<
        SpecValue,
        SpecFunctionError,
    > {
        match input {
            SpecValue::Bool(b) => Ok(SpecValue::String(spec_bool_text(b))),
            other => Err(spec_cast_error(input, "bool"@)),
        }
    }

    fn schema(&self) -> (r: FunctionSchema) {
        proof {
            reveal_strlit("bool:to_string");
        }
        let r = FunctionSchema::new(String::from_str("bool:to_string"));
        proof {
            assert(r@ =~= self.spec_schema());
        }
        r
    }

    fn call(&self, input: Value, arguments: &[Value]) -> (r: Result<Value, FunctionError>) {
        let value = match input.as_bool() {
            Ok(v) => *v,
            Err(e) => {
                return Err(e);
            },
        };
        let text = if value {
            String::from_str("true")
        } else {
            String::from_str("false")
        };
        Ok(Value::String(text))
    }
}

/// `bool:unwrap_or` — the boolean inside an option, or the given default
/// when the option is absent.
pub struct UnwrapOr;

impl FunctionExecutor for UnwrapOr {
    open spec fn spec_schema(&self) -> SpecSchema {
        SpecSchema {
            name: "bool:unwrap_or"@,
            args: seq![
                crate::function_executor::function_argument_type::FunctionArgumentType::Bool,
            ],
        }
    }

    open spec fn spec_call(&self, input: SpecValue, args: Seq<SpecValue>) -> Result<
        SpecValue,
        SpecFunctionError,
    > {
        match input {
            SpecValue::Option(o) => match o {
                Some(inner) => match *inner {
                    SpecValue::Bool(b) => Ok(SpecValue::Bool(b)),
                    other => Err(spec_cast_error(other, "bool"@)),
                },
                None => match args[0] {
                    SpecValue::Bool(d) => Ok(SpecValue::Bool(d)),
                    other => Err(spec_cast_error(other, "bool"@)),
                },
            },
            other => Err(spec_cast_error(input, "option"@)),
        }
    }

    fn schema(&self) -> (r: FunctionSchema) {
        proof {
            reveal_strlit("bool:unwrap_or");
        }
        let r = FunctionSchema::new(String::from_str("bool:unwrap_or")).with_argument(
            FunctionArgument::bool(),
        );
        proof {
            assert(r@.args =~= self.spec_schema().args);
            assert(r@ =~= self.spec_schema());
        }
        r
    }

    fn call(&self, input: Value, arguments: &[Value]) -> (r: Result<Value, FunctionError>) {
        proof {
            assert(spec_values_view(arguments@)[0] == arguments@[0]@);
        }
        let unwrapped = match input.into_option() {
            Ok(v) => v,
            Err(e) => {
                return Err(e);
            },
        };
        let value = match unwrapped {
            Some(inner) => match inner.into_bool() {
                Ok(b) => b,
                Err(e) => {
                    return Err(e);
                },
            },
            None => match arguments[0].as_bool() {
                Ok(d) => *d,
                Err(e) => {
                    return Err(e);
                },
            },
        };
        Ok(Value::Bool(value))
    }
}

} // verus!
