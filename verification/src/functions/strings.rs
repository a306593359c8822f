//! The string functions of the standard library.

use vstd::prelude::*;

use crate::function_executor::function_argument::FunctionArgument;
use crate::function_executor::function_error::{FunctionError, SpecFunctionError};
use crate::function_executor::function_executor::{spec_values_view, FunctionExecutor};
use crate::function_executor::function_schema::{FunctionSchema, SpecSchema};
use crate::function_executor::value::{spec_cast_error, SpecValue, Value};
use crate::text::{
    spec_trim, spec_trim_end, spec_trim_start, spec_usize_truncate, string_of_range,
    string_to_chars, trim_end_string, trim_start_string, trim_string, usize_truncate,
};

verus! {

/// `string:trim` — drops the whitespace at both ends of a string.
pub struct Trim;

impl FunctionExecutor for Trim {
    open spec fn spec_schema(&self) -> SpecSchema {
        SpecSchema { name: "string:trim"@, args: Seq::empty() }
    }

    open spec fn spec_call(&self, input: SpecValue, args: Seq<SpecValue>) -> Result<
        SpecValue,
        SpecFunctionError,
    > {
        match input {
            SpecValue::String(s) => Ok(SpecValue::String(spec_trim(s))),
            other => Err(spec_cast_error(input, "string"@)),
        }
    }

    fn schema(&self) -> (r: FunctionSchema) {
        proof {
            reveal_strlit("string:trim");
        }
        let r = FunctionSchema::new(String::from_str("string:trim"));
        proof {
            assert(r@ =~= self.spec_schema());
        }
        r
    }

    fn call(&self, input: Value, arguments: &[Value]) -> (r: Result<Value, FunctionError>) {
        let value = match input.as_string() {
            Ok(v) => v,
            Err(e) => {
                return Err(e);
            },
        };
        Ok(Value::String(trim_string(value)))
    }
}

/// `string:trim_start` — drops the whitespace at the front of a string.
pub struct TrimStart;

impl FunctionExecutor for TrimStart {
    open spec fn spec_schema(&self) -> SpecSchema {
        SpecSchema { name: "string:trim_start"@, args: Seq::empty() }
    }

    open spec fn spec_call(&self, input: SpecValue, args: Seq<SpecValue>) -> Result<
        SpecValue,
        SpecFunctionError,
    > {
        match input {
            SpecValue::String(s) => Ok(SpecValue::String(spec_trim_start(s))),
            other => Err(spec_cast_error(input, "string"@)),
        }
    }

    fn schema(&self) -> (r: FunctionSchema) {
        proof {
            reveal_strlit("string:trim_start");
        }
        let r = FunctionSchema::new(String::from_str("string:trim_start"));
        proof {
            assert(r@ =~= self.spec_schema());
        }
        r
    }

    fn call(&self, input: Value, arguments: &[Value]) -> (r: Result<Value, FunctionError>) {
        let value = match input.as_string() {
            Ok(v) => v,
            Err(e) => {
                return Err(e);
            },
        };
        Ok(Value::String(trim_start_string(value)))
    }
}

/// `string:trim_end` — drops the whitespace at the end of a string.
pub struct TrimEnd;

impl FunctionExecutor for TrimEnd {
    open spec fn spec_schema(&self) -> SpecSchema {
        SpecSchema { name: "string:trim_end"@, args: Seq::empty() }
    }

    open spec fn spec_call(&self, input: SpecValue, args: Seq<SpecValue>) -> Result<
        SpecValue,
        SpecFunctionError,
    > {
        match input {
            SpecValue::String(s) => Ok(SpecValue::String(spec_trim_end(s))),
            other => Err(spec_cast_error(input, "string"@)),
        }
    }

    fn schema(&self) -> (r: FunctionSchema) {
        proof {
            reveal_strlit("string:trim_end");
        }
        let r = FunctionSchema::new(String::from_str("string:trim_end"));
        proof {
            assert(r@ =~= self.spec_schema());
        }
        r
    }

    fn call(&self, input: Value, arguments: &[Value]) -> (r: Result<Value, FunctionError>) {
        let value = match input.as_string() {
            Ok(v) => v,
            Err(e) => {
                return Err(e);
            },
        };
        Ok(Value::String(trim_end_string(value)))
    }
}

/// What `string:substr` returns: the characters from the offset, of the
/// requested length, when that range lies inside the string; absent
/// otherwise.  The offset and the length count characters and are reduced
/// to the machine's index width.
pub open spec fn spec_substr(s: Seq<char>, offset: u128, length: u128) -> SpecValue {
    let b = spec_usize_truncate(offset);
    let l = spec_usize_truncate(length);
    if b + l <= s.len() {
        SpecValue::Option(
            Some(Box::new(SpecValue::String(s.subrange(b as int, (b + l) as int)))),
        )
    } else {
        SpecValue::Option(None::<Box<SpecValue>>)
    }
}

/// `string:substr` — the characters from an offset, of a given length,
/// absent when out of range.
pub struct SubStr;

impl FunctionExecutor for SubStr {
    open spec fn spec_schema(&self) -> SpecSchema {
        SpecSchema {
            name: "string:substr"@,
            args: seq![
                crate::function_executor::function_argument_type::FunctionArgumentType::UInt,
                crate::function_executor::function_argument_type::FunctionArgumentType::UInt,
            ],
        }
    }

    open spec fn spec_call(&self, input: SpecValue, args: Seq<SpecValue>) -> Result<
        SpecValue,
        SpecFunctionError,
    > {
        if !(input is String) {
            Err(spec_cast_error(input, "string"@))
        } else if !(args[0] is UInt) {
            Err(spec_cast_error(args[0], "uint"@))
        } else if !(args[1] is UInt) {
            Err(spec_cast_error(args[1], "uint"@))
        } else {
            Ok(spec_substr(input->String_0, args[0]->UInt_0, args[1]->UInt_0))
        }
    }

    fn schema(&self) -> (r: FunctionSchema) {
        proof {
            reveal_strlit("string:substr");
        }
        let r = FunctionSchema::new(String::from_str("string:substr")).with_argument(
            FunctionArgument::uint(),
        ).with_argument(FunctionArgument::uint());
        proof {
            assert(r@.args =~= self.spec_schema().args);
            assert(r@ =~= self.spec_schema());
        }
        r
    }

    fn call(&self, input: Value, arguments: &[Value]) -> (r: Result<Value, FunctionError>) {
        proof {
            assert(spec_values_view(arguments@)[0] == arguments@[0]@);
            assert(spec_values_view(arguments@)[1] == arguments@[1]@);
        }
        let value = match input.as_string() {
            Ok(v) => v,
            Err(e) => {
                return Err(e);
            },
        };
        let begin = match arguments[0].as_uint() {
            Ok(v) => usize_truncate(*v),
            Err(e) => {
                return Err(e);
            },
        };
        let length = match arguments[1].as_uint() {
            Ok(v) => usize_truncate(*v),
            Err(e) => {
                return Err(e);
            },
        };
        let chars = string_to_chars(value.as_str());
        let n = chars.len();
        let ghost s = input@->String_0;
        let ghost b = spec_usize_truncate(arguments@[0]@->UInt_0);
        let ghost l = spec_usize_truncate(arguments@[1]@->UInt_0);
        proof {
            assert(begin as nat == b);
            assert(length as nat == l);
            assert(s == chars@);
        }
        let piece: Option<Box<Value>> = match begin.checked_add(length) {
            Some(end) => if end <= n {
                proof {
                    assert(b + l <= s.len());
                }
                let sr = string_of_range(&chars, begin, end);
                proof {
                    assert(sr@ == s.subrange(b as int, (b + l) as int));
                }
                Some(Box::new(Value::String(sr)))
            } else {
                proof {
                    assert(b + l > s.len());
                }
                None
            },
            None => {
                proof {
                    assert(b + l > s.len());
                }
                None
            },
        };
        proof {
            let sv = spec_values_view(arguments@);
            assert(input@ is String);
            assert(sv[0] is UInt);
            assert(sv[1] is UInt);
            if b + l <= s.len() {
                assert(piece is Some);
                let bx = piece->Some_0;
                assert((*bx)@ == SpecValue::String(s.subrange(b as int, (b + l) as int)));
                assert(Value::Option(piece)@ == SpecValue::Option(
                    Some(Box::new(SpecValue::String(s.subrange(b as int, (b + l) as int)))),
                ));
                assert(spec_substr(s, sv[0]->UInt_0, sv[1]->UInt_0) == SpecValue::Option(
                    Some(Box::new(SpecValue::String(s.subrange(b as int, (b + l) as int)))),
                ));
            } else {
                assert(piece is None);
                assert(Value::Option(piece)@ == SpecValue::Option(None::<Box<SpecValue>>));
            }
            assert(Value::Option(piece)@ =~= spec_substr(s, sv[0]->UInt_0, sv[1]->UInt_0));
        }
        Ok(Value::Option(piece))
    }
}

/// `string:unwrap_or` — the string inside an option, or the given default
/// when the option is absent.
pub struct UnwrapOr;

impl FunctionExecutor for UnwrapOr {
    open spec fn spec_schema(&self) -> SpecSchema {
        SpecSchema {
            name: "string:unwrap_or"@,
            args: seq![
                crate::function_executor::function_argument_type::FunctionArgumentType::String,
            ],
        }
    }

    open spec fn spec_call(&self, input: SpecValue, args: Seq<SpecValue>) -> Result<
        SpecValue,
        SpecFunctionError,
    > {
        match input {
            SpecValue::Option(o) => match o {
                Some(inner) => match *inner {
                    SpecValue::String(s) => Ok(SpecValue::String(s)),
                    other => Err(spec_cast_error(other, "string"@)),
                },
                None => match args[0] {
                    SpecValue::String(d) => Ok(SpecValue::String(d)),
                    other => Err(spec_cast_error(other, "string"@)),
                },
            },
            other => Err(spec_cast_error(input, "option"@)),
        }
    }

    fn schema(&self) -> (r: FunctionSchema) {
        proof {
            reveal_strlit("string:unwrap_or");
        }
        let r = FunctionSchema::new(String::from_str("string:unwrap_or")).with_argument(
            FunctionArgument::string(),
        );
        proof {
            assert(r@.args =~= self.spec_schema().args);
            assert(r@ =~= self.spec_schema());
        }
        r
    }

    fn call(&self, input: Value, arguments: &[Value]) -> (r: Result<Value, FunctionError>) {
        let unwrapped = match input.into_option() {
            Ok(v) => v,
            Err(e) => {
                return Err(e);
            },
        };
        let value = match unwrapped {
            Some(inner) => match inner.into_string() {
                Ok(s) => s,
                Err(e) => {
                    return Err(e);
                },
            },
            None => match arguments[0].as_string() {
                Ok(d) => d.clone(),
                Err(e) => {
                    return Err(e);
                },
            },
        };
        Ok(Value::String(value))
    }
}

} // verus!
