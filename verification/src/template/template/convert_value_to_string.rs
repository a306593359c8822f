//! Coercion of the pipeline's final value into output text.

use vstd::prelude::*;

use crate::function_executor::value::{SpecValue, Value};
use crate::template::template_error::{SpecTemplateError, TemplateError};
use crate::text::{
    char_to_string, i128_to_dec, spec_idec, spec_udec, string_from_utf8, u128_to_dec,
    utf8_error_text,
};

verus! {

/// The output text of a final value, by one fixed table: strings,
/// characters and integers stringify directly; bytes decode as UTF-8 or
/// fail; booleans, options and floats are refused outright.
pub open spec fn spec_value_to_string(v: SpecValue) -> Result<Seq<char>, SpecTemplateError> {
    match v {
        SpecValue::String(s) => Ok(s),
        SpecValue::Bool(b) => Err(SpecTemplateError::UnableConvertBoolToString),
        SpecValue::Bytes(bs) => if vstd::utf8::valid_utf8(bs) {
            Ok(vstd::utf8::decode_utf8(bs))
        } else {
            Err(SpecTemplateError::VecToUtf8ConvertationError(utf8_error_text(bs)))
        },
        SpecValue::Char(c) => Ok(seq![c]),
        SpecValue::Option(o) => Err(SpecTemplateError::UnableConvertOptionToString),
        SpecValue::UInt(n) => Ok(spec_udec(n as nat)),
        SpecValue::Int(n) => Ok(spec_idec(n as int)),
        SpecValue::Float(bits) => Err(SpecTemplateError::UnableConvertFloatToString),
    }
}

/// Coerces the pipeline's final value into the text appended to the
/// output, or the error that stops the render.
pub fn convert_value_to_string(value: Value) -> (r: Result<String, TemplateError>)
    ensures
        match r {
            Ok(s) => spec_value_to_string(value@) == Ok::<_, SpecTemplateError>(s@),
            Err(e) => spec_value_to_string(value@) == Err::<Seq<char>, _>(e@),
        },
{
    match value {
        Value::String(s) => Ok(s),
        Value::Bool(b) => Err(TemplateError::UnableConvertBoolToString),
        Value::Bytes(bs) => match string_from_utf8(bs) {
            Ok(s) => Ok(s),
            Err(report) => Err(TemplateError::VecToUtf8ConvertationError(report)),
        },
        Value::Char(c) => Ok(char_to_string(c)),
        Value::Option(o) => Err(TemplateError::UnableConvertOptionToString),
        Value::UInt(n) => Ok(u128_to_dec(n)),
        Value::Int(n) => Ok(i128_to_dec(n)),
        Value::Float(bits) => Err(TemplateError::UnableConvertFloatToString),
    }
}

} // verus!
