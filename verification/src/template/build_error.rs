//! Errors raised while building a template.

use vstd::prelude::*;

use crate::template::argument_types_differ_error::ArgumentTypesDifferError;
use crate::template::syntax::grammar::SpecParseError;
use crate::template::syntax::syntax_parse_error::{spec_parse_error_message, SyntaxParseError};
use crate::text::{spec_udec, u128_to_dec};

verus! {

/// Why a template failed to build, over the shapes of the payloads.
pub enum SpecBuildError {
    Parse(SpecParseError),
    FunctionNotFound(Seq<char>),
    ArgumentsLengthDiffer(Seq<char>),
    ArgumentTypeNotMatch(Seq<char>, int),
}

/// Why a template failed to build.  Building is a pure function of the
/// format text and the registered functions, so a failed build must be
/// fixed in one of the two; retrying changes nothing.
#[derive(Debug)]
pub enum BuildError {
    /// The format text deviates from the grammar.
    Parse(SyntaxParseError),
    /// A call site names a function the registry lacks.
    FunctionNotFound(String),
    /// A call site's argument count differs from the declared count.
    ArgumentsLengthDiffer(String),
    /// A call site's literal type differs from the declared type.
    ArgumentTypeNotMatch(ArgumentTypesDifferError),
}

impl View for BuildError {
    type V = SpecBuildError;

    open spec fn view(&self) -> SpecBuildError {
        match self {
            BuildError::Parse(e) => SpecBuildError::Parse(e@),
            BuildError::FunctionNotFound(n) => SpecBuildError::FunctionNotFound(n@),
            BuildError::ArgumentsLengthDiffer(n) => SpecBuildError::ArgumentsLengthDiffer(n@),
            BuildError::ArgumentTypeNotMatch(e) => SpecBuildError::ArgumentTypeNotMatch(e@.0, e@.1),
        }
    }
}

/// The text of a build-error report.
pub open spec fn spec_build_error_message(e: SpecBuildError) -> Seq<char> {
    match e {
        SpecBuildError::Parse(pe) => spec_parse_error_message(pe),
        SpecBuildError::FunctionNotFound(n) => "Function with name `"@ + n + "` not found"@,
        SpecBuildError::ArgumentsLengthDiffer(n) => "Into function `"@ + n
            + "` passed arguments with wrong length"@,
        SpecBuildError::ArgumentTypeNotMatch(n, i) => "Argument with index `"@ + spec_udec(i as nat)
            + "` at function `"@ + n + "` has wrong type"@,
    }
}

impl BuildError {
    /// The report for this error.
    pub fn message(&self) -> (r: String)
        ensures
            r@ == spec_build_error_message(self@),
    {
        match self {
            BuildError::Parse(e) => e.message(),
            BuildError::FunctionNotFound(n) => {
                let mut m = String::new();
                m.push_str("Function with name `");
                m.push_str(n.as_str());
                m.push_str("` not found");
                m
            },
            BuildError::ArgumentsLengthDiffer(n) => {
                let mut m = String::new();
                m.push_str("Into function `");
                m.push_str(n.as_str());
                m.push_str("` passed arguments with wrong length");
                m
            },
            BuildError::ArgumentTypeNotMatch(e) => {
                let mut m = String::new();
                m.push_str("Argument with index `");
                let position = u128_to_dec(e.get_argument_position() as u128);
                m.push_str(position.as_str());
                m.push_str("` at function `");
                m.push_str(e.get_function_name().as_str());
                m.push_str("` has wrong type");
                m
            },
        }
    }
}

} // verus!
