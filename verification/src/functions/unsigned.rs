//! The unsigned-integer functions of the standard library.

use vstd::prelude::*;

use crate::function_executor::function_argument::FunctionArgument;
use crate::function_executor::function_error::{FunctionError, SpecFunctionError};
use crate::function_executor::function_executor::{spec_values_view, FunctionExecutor};
use crate::function_executor::function_schema::{FunctionSchema, SpecSchema};
use crate::function_executor::value::{spec_cast_error, SpecValue, Value};
use crate::functions::signed::{pad_hex, spec_hex_fmt};
use crate::text::{spec_udec, spec_uhex, spec_usize_truncate, u128_to_dec, u128_to_hex, usize_truncate};

verus! {

/// `uint:hex` — lower-case hexadecimal, no leading zeros.
pub struct Hex;

impl FunctionExecutor for Hex {
    open spec fn spec_schema(&self) -> SpecSchema {
        SpecSchema { name: "uint:hex"@, args: Seq::empty() }
    }

    open spec fn spec_call(&self, input: SpecValue, args: Seq<SpecValue>) -> Result<
        SpecValue,
        SpecFunctionError,
    > {
        match input {
            SpecValue::UInt(n) => Ok(SpecValue::String(spec_uhex(n as nat))),
            other => Err(spec_cast_error(input, "uint"@)),
        }
    }

    fn schema(&self) -> (r: FunctionSchema) {
        proof {
            reveal_strlit("uint:hex");
        }
        let r = FunctionSchema::new(String::from_str("uint:hex"));
        proof {
            assert(r@ =~= self.spec_schema());
        }
        r
    }

    fn call(&self, input: Value, arguments: &[Value]) -> (r: Result<Value, FunctionError>) {
        let value = match input.as_uint() {
            Ok(v) => *v,
            Err(e) => {
                return Err(e);
            },
        };
        Ok(Value::String(u128_to_hex(value)))
    }
}

/// `uint:hex_fmt` — hexadecimal text, left-padded with zeros to the width
/// the argument gives.
pub struct HexFmt;

impl FunctionExecutor for HexFmt {
    open spec fn spec_schema(&self) -> SpecSchema {
        SpecSchema {
            name: "uint:hex_fmt"@,
            args: seq![
                crate::function_executor::function_argument_type::FunctionArgumentType::UInt,
            ],
        }
    }

    open spec fn spec_call(&self, input: SpecValue, args: Seq<SpecValue>) -> Result<
        SpecValue,
        SpecFunctionError,
    > {
        if !(input is UInt) {
            Err(spec_cast_error(input, "uint"@))
        } else if !(args[0] is UInt) {
            Err(spec_cast_error(args[0], "uint"@))
        } else {
            Ok(
                SpecValue::String(
                    spec_hex_fmt(
                        spec_uhex(input->UInt_0 as nat),
                        spec_usize_truncate(args[0]->UInt_0),
                    ),
                ),
            )
        }
    }

    fn schema(&self) -> (r: FunctionSchema) {
        proof {
            reveal_strlit("uint:hex_fmt");
        }
        let r = FunctionSchema::new(String::from_str("uint:hex_fmt")).with_argument(
            FunctionArgument::uint(),
        );
        proof {
            assert(r@.args =~= self.spec_schema().args);
            assert(r@ =~= self.spec_schema());
        }
        r
    }

    fn call(&self, input: Value, arguments: &[Value]) -> (r: Result<Value, FunctionError>) {
        proof {
            assert(spec_values_view(arguments@)[0] == arguments@[0]@);
        }
        let value = match input.as_uint() {
            Ok(v) => *v,
            Err(e) => {
                return Err(e);
            },
        };
        let width = match arguments[0].as_uint() {
            Ok(w) => usize_truncate(*w),
            Err(e) => {
                return Err(e);
            },
        };
        let hex = u128_to_hex(value);
        Ok(Value::String(pad_hex(hex, width)))
    }
}

/// `uint:to_string` — decimal text.
pub struct ToString;

impl FunctionExecutor for ToString {
    open spec fn spec_schema(&self) -> SpecSchema {
        SpecSchema { name: "uint:to_string"@, args: Seq::empty() }
    }

    open spec fn spec_call(&self, input: SpecValue, args: Seq<SpecValue>) -> Result<
        SpecValue,
        SpecFunctionError,
    > {
        match input {
            SpecValue::UInt(n) => Ok(SpecValue::String(spec_udec(n as nat))),
            other => Err(spec_cast_error(input, "uint"@)),
        }
    }

    fn schema(&self) -> (r: FunctionSchema) {
        proof {
            reveal_strlit("uint:to_string");
        }
        let r = FunctionSchema::new(String::from_str("uint:to_string"));
        proof {
            assert(r@ =~= self.spec_schema());
        }
        r
    }

    fn call(&self, input: Value, arguments: &[Value]) -> (r: Result<Value, FunctionError>) {
        let value = match input.as_uint() {
            Ok(v) => *v,
            Err(e) => {
                return Err(e);
            },
        };
        Ok(Value::String(u128_to_dec(value)))
    }
}

} // verus!
