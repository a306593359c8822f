//! Template format parsing errors.

use vstd::prelude::*;

use crate::template::syntax::expected_token_error::{
    ExpectedTokenError, spec_expected_token_message,
};
use crate::template::syntax::grammar::SpecParseError;
use crate::template::syntax::invalid_argument_template::{
    InvalidArgumentTemplate, spec_invalid_argument_message,
};
use crate::template::syntax::unexpected_input_error::{
    UnexpectedInputError, spec_unexpected_input_message,
};
use crate::text::IntParseError;

verus! {

/// Why the template text failed to parse.
#[derive(Debug)]
pub enum SyntaxParseError {
    /// An integer span failed to read.
    ParseInt(IntParseError),
    /// A function name is missing or starts with a digit.
    WrongFunctionName,
    /// A field name is missing or starts with a digit.
    WrongFieldName,
    /// A fixed token was expected and something else came.
    ExpectedToken(ExpectedTokenError),
    /// The remaining input fits no production.
    UnexpectedInput(UnexpectedInputError),
    /// The whole template has no tokens at all.
    TemplateIsEmpty,
    /// A call argument fits no literal shape.
    InvalidArgumentTemplate(InvalidArgumentTemplate),
}

impl View for SyntaxParseError {
    type V = SpecParseError;

    open spec fn view(&self) -> SpecParseError {
        match self {
            SyntaxParseError::ParseInt(k) => SpecParseError::ParseInt(*k),
            SyntaxParseError::WrongFunctionName => SpecParseError::WrongFunctionName,
            SyntaxParseError::WrongFieldName => SpecParseError::WrongFieldName,
            SyntaxParseError::ExpectedToken(e) => SpecParseError::ExpectedToken(e@.0, e@.1),
            SyntaxParseError::UnexpectedInput(e) => SpecParseError::UnexpectedInput(e@),
            SyntaxParseError::TemplateIsEmpty => SpecParseError::TemplateIsEmpty,
            SyntaxParseError::InvalidArgumentTemplate(e) => SpecParseError::InvalidArgumentTemplate(
                e@.0,
                e@.1,
            ),
        }
    }
}

/// The text of an integer-parsing report, as the standard integer parser
/// words the cases.
pub open spec fn spec_int_parse_message(k: IntParseError) -> Seq<char> {
    match k {
        IntParseError::Empty => "cannot parse integer from empty string"@,
        IntParseError::InvalidDigit => "invalid digit found in string"@,
        IntParseError::PosOverflow => "number too large to fit in target type"@,
        IntParseError::NegOverflow => "number too small to fit in target type"@,
    }
}

/// The text of a parse-error report.
pub open spec fn spec_parse_error_message(e: SpecParseError) -> Seq<char> {
    match e {
        SpecParseError::ParseInt(k) => spec_int_parse_message(k),
        SpecParseError::WrongFunctionName => "Wrong function name"@,
        SpecParseError::WrongFieldName => "Wrong field name"@,
        SpecParseError::ExpectedToken(token, input) => spec_expected_token_message(token, input),
        SpecParseError::UnexpectedInput(input) => spec_unexpected_input_message(input),
        SpecParseError::TemplateIsEmpty => "Template is empty"@,
        SpecParseError::InvalidArgumentTemplate(template, input) => spec_invalid_argument_message(
            template,
            input,
        ),
    }
}

impl SyntaxParseError {
    /// The report for this error.
    pub fn message(&self) -> (r: String)
        ensures
            r@ == spec_parse_error_message(self@),
    {
        match self {
            SyntaxParseError::ParseInt(k) => {
                let mut m = String::new();
                match k {
                    IntParseError::Empty => m.push_str("cannot parse integer from empty string"),
                    IntParseError::InvalidDigit => m.push_str("invalid digit found in string"),
                    IntParseError::PosOverflow => m.push_str(
                        "number too large to fit in target type",
                    ),
                    IntParseError::NegOverflow => m.push_str(
                        "number too small to fit in target type",
                    ),
                }
                m
            },
            SyntaxParseError::WrongFunctionName => {
                let mut m = String::new();
                m.push_str("Wrong function name");
                m
            },
            SyntaxParseError::WrongFieldName => {
                let mut m = String::new();
                m.push_str("Wrong field name");
                m
            },
            SyntaxParseError::ExpectedToken(e) => e.message(),
            SyntaxParseError::UnexpectedInput(e) => e.message(),
            SyntaxParseError::TemplateIsEmpty => {
                let mut m = String::new();
                m.push_str("Template is empty");
                m
            },
            SyntaxParseError::InvalidArgumentTemplate(e) => e.message(),
        }
    }
}

} // verus!
