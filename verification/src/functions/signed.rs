//! The signed-integer functions of the standard library.

use vstd::prelude::*;

use crate::function_executor::function_argument::FunctionArgument;
use crate::function_executor::function_error::{FunctionError, SpecFunctionError};
use crate::function_executor::function_executor::{spec_values_view, FunctionExecutor};
use crate::function_executor::function_schema::{FunctionSchema, SpecSchema};
use crate::function_executor::value::{spec_cast_error, SpecValue, Value};
use crate::text::{
    i128_abs, i128_to_dec, i128_twos_complement, spec_idec, spec_twos_complement, spec_uhex,
    spec_usize_truncate, u128_to_hex, usize_truncate,
};

verus! {

/// The absolute value of a signed value.
pub open spec fn spec_abs(n: i128) -> u128 {
    if n < 0 {
        (-(n as int)) as u128
    } else {
        n as u128
    }
}

/// `int:abs` — the absolute value, as an unsigned value.
pub struct Abs;

impl FunctionExecutor for Abs {
    open spec fn spec_schema(&self) -> SpecSchema {
        SpecSchema { name: "int:abs"@, args: Seq::empty() }
    }

    open spec fn spec_call(&self, input: SpecValue, args: Seq<SpecValue>) -> Result<
        SpecValue,
        SpecFunctionError,
    > {
        match input {
            SpecValue::Int(n) => Ok(SpecValue::UInt(spec_abs(n))),
            other => Err(spec_cast_error(input, "int"@)),
        }
    }

    fn schema(&self) -> (r: FunctionSchema) {
        proof {
            reveal_strlit("int:abs");
        }
        let r = FunctionSchema::new(String::from_str("int:abs"));
        proof {
            assert(r@ =~= self.spec_schema());
        }
        r
    }

    fn call(&self, input: Value, arguments: &[Value]) -> (r: Result<Value, FunctionError>) {
        let value = match input.as_int() {
            Ok(v) => *v,
            Err(e) => {
                return Err(e);
            },
        };
        Ok(Value::UInt(i128_abs(value)))
    }
}

/// `int:hex` — the two's-complement bit pattern in lower-case hexadecimal,
/// no leading zeros.
pub struct Hex;

impl FunctionExecutor for Hex {
    open spec fn spec_schema(&self) -> SpecSchema {
        SpecSchema { name: "int:hex"@, args: Seq::empty() }
    }

    open spec fn spec_call(&self, input: SpecValue, args: Seq<SpecValue>) -> Result<
        SpecValue,
        SpecFunctionError,
    > {
        match input {
            SpecValue::Int(n) => Ok(SpecValue::String(spec_uhex(spec_twos_complement(n)))),
            other => Err(spec_cast_error(input, "int"@)),
        }
    }

    fn schema(&self) -> (r: FunctionSchema) {
        proof {
            reveal_strlit("int:hex");
        }
        let r = FunctionSchema::new(String::from_str("int:hex"));
        proof {
            assert(r@ =~= self.spec_schema());
        }
        r
    }

    fn call(&self, input: Value, arguments: &[Value]) -> (r: Result<Value, FunctionError>) {
        let value = match input.as_int() {
            Ok(v) => *v,
            Err(e) => {
                return Err(e);
            },
        };
        Ok(Value::String(u128_to_hex(i128_twos_complement(value))))
    }
}

/// Hexadecimal text left-padded with zeros to the requested width; a width
/// within the text's length pads nothing.
pub open spec fn spec_hex_fmt(hex: Seq<char>, width: nat) -> Seq<char> {
    if width > hex.len() {
        Seq::new((width - hex.len()) as nat, |i: int| '0') + hex
    } else {
        hex
    }
}

/// Pads hexadecimal text with leading zeros to the requested width.
pub fn pad_hex(hex: String, width: usize) -> (r: String)
    ensures
        r@ == spec_hex_fmt(hex@, width as nat),
{
    let chars = crate::text::string_to_chars(hex.as_str());
    let n = chars.len();
    if width <= n {
        return hex;
    }
    let mut out: Vec<char> = Vec::new();
    let mut i: usize = 0;
    while i < width - n
        invariant
            n == hex@.len(),
            n < width,
            0 <= i <= width - n,
            out@ == Seq::new(i as nat, |j: int| '0'),
        decreases width - n - i,
    {
        out.push('0');
        i = i + 1;
        proof {
            assert(out@ =~= Seq::new(i as nat, |j: int| '0'));
        }
    }
    let mut i: usize = 0;
    while i < n
        invariant
            n == hex@.len(),
            chars@ == hex@,
            n <= chars@.len(),
            0 <= i <= n,
            out@ == Seq::new((width - n) as nat, |j: int| '0') + hex@.subrange(0, i as int),
        decreases n - i,
    {
        out.push(chars[i]);
        i = i + 1;
        proof {
            assert(out@ =~= Seq::new((width - n) as nat, |j: int| '0') + hex@.subrange(
                0,
                i as int,
            ));
        }
    }
    proof {
        assert(hex@.subrange(0, n as int) =~= hex@);
    }
    crate::text::chars_to_string(&out)
}

/// `int:hex_fmt` — the two's-complement hexadecimal text, left-padded with
/// zeros to the width the argument gives.
pub struct HexFmt;

impl FunctionExecutor for HexFmt {
    open spec fn spec_schema(&self) -> SpecSchema {
        SpecSchema {
            name: "int:hex_fmt"@,
            args: seq![
                crate::function_executor::function_argument_type::FunctionArgumentType::UInt,
            ],
        }
    }

    open spec fn spec_call(&self, input: SpecValue, args: Seq<SpecValue>) -> Result<
        SpecValue,
        SpecFunctionError,
    > {
        if !(input is Int) {
            Err(spec_cast_error(input, "int"@))
        } else if !(args[0] is UInt) {
            Err(spec_cast_error(args[0], "uint"@))
        } else {
            Ok(
                SpecValue::String(
                    spec_hex_fmt(
                        spec_uhex(spec_twos_complement(input->Int_0)),
                        spec_usize_truncate(args[0]->UInt_0),
                    ),
                ),
            )
        }
    }

    fn schema(&self) -> (r: FunctionSchema) {
        proof {
            reveal_strlit("int:hex_fmt");
        }
        let r = FunctionSchema::new(String::from_str("int:hex_fmt")).with_argument(
            FunctionArgument::uint(),
        );
        proof {
            assert(r@.args =~= self.spec_schema().args);
            assert(r@ =~= self.spec_schema());
        }
        r
    }

    fn call(&self, input: Value, arguments: &[Value]) -> (r: Result<Value, FunctionError>) {
        proof {
            assert(spec_values_view(arguments@)[0] == arguments@[0]@);
        }
        let value = match input.as_int() {
            Ok(v) => *v,
            Err(e) => {
                return Err(e);
            },
        };
        let width = match arguments[0].as_uint() {
            Ok(w) => usize_truncate(*w),
            Err(e) => {
                return Err(e);
            },
        };
        let hex = u128_to_hex(i128_twos_complement(value));
        Ok(Value::String(pad_hex(hex, width)))
    }
}

/// `int:to_string` — decimal text, with a `-` sign when negative.
pub struct ToString;

impl FunctionExecutor for ToString {
    open spec fn spec_schema(&self) -> SpecSchema {
        SpecSchema { name: "int:to_string"@, args: Seq::empty() }
    }

    open spec fn spec_call(&self, input: SpecValue, args: Seq<SpecValue>) -> Result<
        SpecValue,
        SpecFunctionError,
    > {
        match input {
            SpecValue::Int(n) => Ok(SpecValue::String(spec_idec(n as int))),
            other => Err(spec_cast_error(input, "int"@)),
        }
    }

    fn schema(&self) -> (r: FunctionSchema) {
        proof {
            reveal_strlit("int:to_string");
        }
        let r = FunctionSchema::new(String::from_str("int:to_string"));
        proof {
            assert(r@ =~= self.spec_schema());
        }
        r
    }

    fn call(&self, input: Value, arguments: &[Value]) -> (r: Result<Value, FunctionError>) {
        let value = match input.as_int() {
            Ok(v) => *v,
            Err(e) => {
                return Err(e);
            },
        };
        Ok(Value::String(i128_to_dec(value)))
    }
}

} // verus!
