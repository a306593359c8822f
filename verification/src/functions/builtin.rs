//! The standard functions gathered into one registrable type.

use vstd::prelude::*;

use crate::function_executor::function_error::{FunctionError, SpecFunctionError};
use crate::function_executor::function_executor::FunctionExecutor;
use crate::function_executor::function_schema::{FunctionSchema, SpecSchema};
use crate::function_executor::value::{SpecValue, Value};
use crate::functions::booleans;
use crate::functions::debugging;
use crate::functions::signed;
use crate::functions::strings;
use crate::functions::unsigned;

verus! {

/// One function of the standard library, as one registry entry type.
/// A registry is homogeneous over its executor type; this enum lets the
/// standard functions share one registry, and a caller with functions of
/// its own supplies its own executor type the same way.
pub enum BuiltinExecutor {
    BoolToString(booleans::ToString),
    BoolUnwrapOr(booleans::UnwrapOr),
    DebugType(debugging::DebugType),
    IntAbs(signed::Abs),
    IntHex(signed::Hex),
    IntHexFmt(signed::HexFmt),
    IntToString(signed::ToString),
    StringTrim(strings::Trim),
    StringTrimStart(strings::TrimStart),
    StringTrimEnd(strings::TrimEnd),
    StringSubStr(strings::SubStr),
    StringUnwrapOr(strings::UnwrapOr),
    UIntHex(unsigned::Hex),
    UIntHexFmt(unsigned::HexFmt),
    UIntToString(unsigned::ToString),
}

impl FunctionExecutor for BuiltinExecutor {
    open spec fn spec_schema(&self) -> SpecSchema {
        match self {
            BuiltinExecutor::BoolToString(f) => f.spec_schema(),
            BuiltinExecutor::BoolUnwrapOr(f) => f.spec_schema(),
            BuiltinExecutor::DebugType(f) => f.spec_schema(),
            BuiltinExecutor::IntAbs(f) => f.spec_schema(),
            BuiltinExecutor::IntHex(f) => f.spec_schema(),
            BuiltinExecutor::IntHexFmt(f) => f.spec_schema(),
            BuiltinExecutor::IntToString(f) => f.spec_schema(),
            BuiltinExecutor::StringTrim(f) => f.spec_schema(),
            BuiltinExecutor::StringTrimStart(f) => f.spec_schema(),
            BuiltinExecutor::StringTrimEnd(f) => f.spec_schema(),
            BuiltinExecutor::StringSubStr(f) => f.spec_schema(),
            BuiltinExecutor::StringUnwrapOr(f) => f.spec_schema(),
            BuiltinExecutor::UIntHex(f) => f.spec_schema(),
            BuiltinExecutor::UIntHexFmt(f) => f.spec_schema(),
            BuiltinExecutor::UIntToString(f) => f.spec_schema(),
        }
    }

    open spec fn spec_call(&self, input: SpecValue, args: Seq<SpecValue>) -> Result<
        SpecValue,
        SpecFunctionError,
    > {
        match self {
            BuiltinExecutor::BoolToString(f) => f.spec_call(input, args),
            BuiltinExecutor::BoolUnwrapOr(f) => f.spec_call(input, args),
            BuiltinExecutor::DebugType(f) => f.spec_call(input, args),
            BuiltinExecutor::IntAbs(f) => f.spec_call(input, args),
            BuiltinExecutor::IntHex(f) => f.spec_call(input, args),
            BuiltinExecutor::IntHexFmt(f) => f.spec_call(input, args),
            BuiltinExecutor::IntToString(f) => f.spec_call(input, args),
            BuiltinExecutor::StringTrim(f) => f.spec_call(input, args),
            BuiltinExecutor::StringTrimStart(f) => f.spec_call(input, args),
            BuiltinExecutor::StringTrimEnd(f) => f.spec_call(input, args),
            BuiltinExecutor::StringSubStr(f) => f.spec_call(input, args),
            BuiltinExecutor::StringUnwrapOr(f) => f.spec_call(input, args),
            BuiltinExecutor::UIntHex(f) => f.spec_call(input, args),
            BuiltinExecutor::UIntHexFmt(f) => f.spec_call(input, args),
            BuiltinExecutor::UIntToString(f) => f.spec_call(input, args),
        }
    }

    fn schema(&self) -> (r: FunctionSchema) {
        match self {
            BuiltinExecutor::BoolToString(f) => f.schema(),
            BuiltinExecutor::BoolUnwrapOr(f) => f.schema(),
            BuiltinExecutor::DebugType(f) => f.schema(),
            BuiltinExecutor::IntAbs(f) => f.schema(),
            BuiltinExecutor::IntHex(f) => f.schema(),
            BuiltinExecutor::IntHexFmt(f) => f.schema(),
            BuiltinExecutor::IntToString(f) => f.schema(),
            BuiltinExecutor::StringTrim(f) => f.schema(),
            BuiltinExecutor::StringTrimStart(f) => f.schema(),
            BuiltinExecutor::StringTrimEnd(f) => f.schema(),
            BuiltinExecutor::StringSubStr(f) => f.schema(),
            BuiltinExecutor::StringUnwrapOr(f) => f.schema(),
            BuiltinExecutor::UIntHex(f) => f.schema(),
            BuiltinExecutor::UIntHexFmt(f) => f.schema(),
            BuiltinExecutor::UIntToString(f) => f.schema(),
        }
    }

    fn call(&self, input: Value, arguments: &[Value]) -> (r: Result<Value, FunctionError>) {
        match self {
            BuiltinExecutor::BoolToString(f) => f.call(input, arguments),
            BuiltinExecutor::BoolUnwrapOr(f) => f.call(input, arguments),
            BuiltinExecutor::DebugType(f) => f.call(input, arguments),
            BuiltinExecutor::IntAbs(f) => f.call(input, arguments),
            BuiltinExecutor::IntHex(f) => f.call(input, arguments),
            BuiltinExecutor::IntHexFmt(f) => f.call(input, arguments),
            BuiltinExecutor::IntToString(f) => f.call(input, arguments),
            BuiltinExecutor::StringTrim(f) => f.call(input, arguments),
            BuiltinExecutor::StringTrimStart(f) => f.call(input, arguments),
            BuiltinExecutor::StringTrimEnd(f) => f.call(input, arguments),
            BuiltinExecutor::StringSubStr(f) => f.call(input, arguments),
            BuiltinExecutor::StringUnwrapOr(f) => f.call(input, arguments),
            BuiltinExecutor::UIntHex(f) => f.call(input, arguments),
            BuiltinExecutor::UIntHexFmt(f) => f.call(input, arguments),
            BuiltinExecutor::UIntToString(f) => f.call(input, arguments),
        }
    }
}

} // verus!
