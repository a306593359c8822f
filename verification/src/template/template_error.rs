//! Template execution errors.

use vstd::prelude::*;

use crate::function_executor::function_error::{FunctionError, SpecFunctionError};

verus! {

/// Why a render failed, over the shapes of the payloads.
pub enum SpecTemplateError {
    PathNotFound(Seq<char>),
    PathContainsSeq(Seq<char>),
    PathContainsMap(Seq<char>),
    PathContainsUnknownType(Seq<char>),
    PathContainsUnknownErrorType(Seq<char>),
    FunctionNotFound(Seq<char>),
    FunctionError(SpecFunctionError),
    SerializationError,
    UnableConvertBoolToString,
    UnableConvertOptionToString,
    UnableConvertFloatToString,
    VecToUtf8ConvertationError(Seq<char>),
}

/// Why a render failed.  A failure aborts the whole render at once: no
/// partial output is kept.
#[derive(Debug)]
pub enum TemplateError {
    /// The path resolved to nothing; carries the path's text.
    PathNotFound(String),
    /// The path resolved to a sequence node that is not a byte string.
    PathContainsSeq(String),
    /// The path resolved to an associative node.
    PathContainsMap(String),
    /// The path resolved to a node of an unsupported shape.
    PathContainsUnknownType(String),
    /// The path resolved to a node standing for a conversion error.
    PathContainsUnknownErrorType(String),
    /// A pipeline named a function the template's registry lacks.
    FunctionNotFound(String),
    /// A function reported a failure of its own.
    FunctionError(FunctionError),
    /// The input value could not be converted to a structured tree.
    SerializationError,
    /// A boolean reached the output without `bool:to_string`.
    UnableConvertBoolToString,
    /// An option reached the output without an unwrapping function.
    UnableConvertOptionToString,
    /// A float reached the output without `float:to_string`.
    UnableConvertFloatToString,
    /// A byte string reached the output but is not valid UTF-8; carries
    /// the decoder's report.
    VecToUtf8ConvertationError(String),
}

impl View for TemplateError {
    type V = SpecTemplateError;

    open spec fn view(&self) -> SpecTemplateError {
        match self {
            TemplateError::PathNotFound(p) => SpecTemplateError::PathNotFound(p@),
            TemplateError::PathContainsSeq(p) => SpecTemplateError::PathContainsSeq(p@),
            TemplateError::PathContainsMap(p) => SpecTemplateError::PathContainsMap(p@),
            TemplateError::PathContainsUnknownType(p) => SpecTemplateError::PathContainsUnknownType(
                p@,
            ),
            TemplateError::PathContainsUnknownErrorType(p) => {
                SpecTemplateError::PathContainsUnknownErrorType(p@)
            },
            TemplateError::FunctionNotFound(n) => SpecTemplateError::FunctionNotFound(n@),
            TemplateError::FunctionError(e) => SpecTemplateError::FunctionError(e@),
            TemplateError::SerializationError => SpecTemplateError::SerializationError,
            TemplateError::UnableConvertBoolToString => SpecTemplateError::UnableConvertBoolToString,
            TemplateError::UnableConvertOptionToString => {
                SpecTemplateError::UnableConvertOptionToString
            },
            TemplateError::UnableConvertFloatToString => {
                SpecTemplateError::UnableConvertFloatToString
            },
            TemplateError::VecToUtf8ConvertationError(m) => {
                SpecTemplateError::VecToUtf8ConvertationError(m@)
            },
        }
    }
}

/// The text of a render-error report.
pub open spec fn spec_template_error_message(e: SpecTemplateError) -> Seq<char> {
    match e {
        SpecTemplateError::PathNotFound(p) => "Path not found: `"@ + p + "`"@,
        SpecTemplateError::PathContainsSeq(p) => "Path `"@ + p + "` contains sequence"@,
        SpecTemplateError::PathContainsMap(p) => "Path `"@ + p + "` contains map"@,
        SpecTemplateError::PathContainsUnknownType(p) => "Path `"@ + p + "` contains unknown type"@,
        SpecTemplateError::PathContainsUnknownErrorType(p) => "Path `"@ + p
            + "` contains unknown error type"@,
        SpecTemplateError::FunctionNotFound(n) => "Function `"@ + n + "` not found"@,
        SpecTemplateError::FunctionError(e) => e.display,
        SpecTemplateError::SerializationError => "Error while serialization"@,
        SpecTemplateError::UnableConvertBoolToString => {
            "Convertation bool to string is not supported"@
        },
        SpecTemplateError::UnableConvertOptionToString => {
            "Convertation option to string is not supported"@
        },
        SpecTemplateError::UnableConvertFloatToString => {
            "Convertation float to string is not supported"@
        },
        SpecTemplateError::VecToUtf8ConvertationError(m) => {
            "Error while converting vec to string: "@ + m
        },
    }
}

impl TemplateError {
    /// The report for this error.
    pub fn message(&self) -> (r: String)
        ensures
            r@ == spec_template_error_message(self@),
    {
        let mut m = String::new();
        match self {
            TemplateError::PathNotFound(p) => {
                m.push_str("Path not found: `");
                m.push_str(p.as_str());
                m.push_str("`");
            },
            TemplateError::PathContainsSeq(p) => {
                m.push_str("Path `");
                m.push_str(p.as_str());
                m.push_str("` contains sequence");
            },
            TemplateError::PathContainsMap(p) => {
                m.push_str("Path `");
                m.push_str(p.as_str());
                m.push_str("` contains map");
            },
            TemplateError::PathContainsUnknownType(p) => {
                m.push_str("Path `");
                m.push_str(p.as_str());
                m.push_str("` contains unknown type");
            },
            TemplateError::PathContainsUnknownErrorType(p) => {
                m.push_str("Path `");
                m.push_str(p.as_str());
                m.push_str("` contains unknown error type");
            },
            TemplateError::FunctionNotFound(n) => {
                m.push_str("Function `");
                m.push_str(n.as_str());
                m.push_str("` not found");
            },
            TemplateError::FunctionError(e) => {
                let text = e.message();
                m.push_str(text.as_str());
            },
            TemplateError::SerializationError => {
                m.push_str("Error while serialization");
            },
            TemplateError::UnableConvertBoolToString => {
                m.push_str("Convertation bool to string is not supported");
            },
            TemplateError::UnableConvertOptionToString => {
                m.push_str("Convertation option to string is not supported");
            },
            TemplateError::UnableConvertFloatToString => {
                m.push_str("Convertation float to string is not supported");
            },
            TemplateError::VecToUtf8ConvertationError(t) => {
                m.push_str("Error while converting vec to string: ");
                m.push_str(t.as_str());
            },
        }
        m
    }
}

} // verus!
