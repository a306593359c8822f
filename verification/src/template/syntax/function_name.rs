//! A function name inside a pipeline.

use vstd::prelude::*;

use crate::template::syntax::grammar::{spec_parse_function_name, SpecParseError};
use crate::template::syntax::syntax_parse_error::SyntaxParseError;
use crate::text::{is_digit, scan_fname, string_of_range, lemma_skip_subrange, lemma_skip_skip};

verus! {

broadcast use lemma_skip_subrange, lemma_skip_skip;

/// The name a function call refers to; `:` separates namespaces.
pub struct FunctionName(String);

impl View for FunctionName {
    type V = Seq<char>;

    closed spec fn view(&self) -> Seq<char> {
        self.0@
    }
}

impl FunctionName {
    pub(crate) fn new(name: String) -> (r: FunctionName)
        ensures
            r@ == name@,
    {
        FunctionName(name)
    }

    /// The name's text.
    pub fn as_string_ref(&self) -> (r: &String)
        ensures
            r@ == self@,
    {
        &self.0
    }

    /// Reads a function name at `pos`: not digit-led, at least one name
    /// character.
    pub fn parse(input: &Vec<char>, pos: usize) -> (r: Result<
        (FunctionName, usize),
        SyntaxParseError,
    >)
        requires
            pos <= input@.len(),
        ensures
            match r {
                Ok(p) => pos <= p.1 <= input@.len() && spec_parse_function_name(
                    input@.skip(pos as int),
                ) == Ok::<_, SpecParseError>((p.0@, input@.skip(p.1 as int))),
                Err(e) => spec_parse_function_name(input@.skip(pos as int)) == Err::<
                    (Seq<char>, Seq<char>),
                    _,
                >(e@),
            },
    {
        let ghost s = input@.skip(pos as int);
        if pos < input.len() && is_digit(input[pos]) {
            proof {
                assert(s[0] == input@[pos as int]);
            }
            return Err(SyntaxParseError::WrongFunctionName);
        }
        let end = scan_fname(input, pos);
        if end == pos {
            return Err(SyntaxParseError::WrongFunctionName);
        }
        let name = string_of_range(input, pos, end);
        Ok((FunctionName(name), end))
    }
}

} // verus!
