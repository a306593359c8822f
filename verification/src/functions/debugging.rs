//! The inspection function of the standard library.

use vstd::prelude::*;

use crate::function_executor::function_error::{FunctionError, SpecFunctionError};
use crate::function_executor::function_executor::FunctionExecutor;
use crate::function_executor::function_schema::{FunctionSchema, SpecSchema};
use crate::function_executor::value::{SpecValue, Value};

verus! {

/// The name of a value's tag, options showing their content's tag.
pub open spec fn spec_inspect(v: SpecValue) -> Seq<char>
    decreases v,
{
    match v {
        SpecValue::String(s) => "String"@,
        SpecValue::Bool(b) => "Bool"@,
        SpecValue::Bytes(bs) => "Bytes"@,
        SpecValue::Char(c) => "Char"@,
        SpecValue::Option(o) => match o {
            Some(inner) => "Option<"@ + spec_inspect(*inner) + ">"@,
            None => "Option<..>"@,
        },
        SpecValue::UInt(n) => "UInt"@,
        SpecValue::Int(n) => "Int"@,
        SpecValue::Float(bits) => "Float"@,
    }
}

fn inspect_type(value: &Value) -> (r: String)
    ensures
        r@ == spec_inspect(value@),
    decreases *value,
{
    match value {
        Value::String(s) => String::from_str("String"),
        Value::Bool(b) => String::from_str("Bool"),
        Value::Bytes(bs) => String::from_str("Bytes"),
        Value::Char(c) => String::from_str("Char"),
        Value::Option(o) => {
            match o {
                Some(inner) => {
                    let mut m = String::from_str("Option<");
                    let text = inspect_type(inner);
                    m.push_str(text.as_str());
                    m.push_str(">");
                    m
                },
                None => String::from_str("Option<..>"),
            }
        },
        Value::UInt(n) => String::from_str("UInt"),
        Value::Int(n) => String::from_str("Int"),
        Value::Float(bits) => String::from_str("Float"),
    }
}

/// `debug:type` — the name of the value's tag, for inspecting a pipeline.
pub struct DebugType;

impl FunctionExecutor for DebugType {
    open spec fn spec_schema(&self) -> SpecSchema {
        SpecSchema { name: "debug:type"@, args: Seq::empty() }
    }

    open spec fn spec_call(&self, input: SpecValue, args: Seq<SpecValue>) -> Result<
        SpecValue,
        SpecFunctionError,
    > {
        Ok(SpecValue::String(spec_inspect(input)))
    }

    fn schema(&self) -> (r: FunctionSchema) {
        proof {
            reveal_strlit("debug:type");
        }
        let r = FunctionSchema::new(String::from_str("debug:type"));
        proof {
            assert(r@ =~= self.spec_schema());
        }
        r
    }

    fn call(&self, input: Value, arguments: &[Value]) -> (r: Result<Value, FunctionError>) {
        Ok(Value::String(inspect_type(&input)))
    }
}

} // verus!
