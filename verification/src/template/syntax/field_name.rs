//! A named path segment.

use vstd::prelude::*;

use crate::template::syntax::grammar::{spec_parse_field_name, SpecParseError};
use crate::template::syntax::syntax_parse_error::SyntaxParseError;
use crate::text::{is_digit, scan_ident, string_of_range, lemma_skip_subrange, lemma_skip_skip};

verus! {

broadcast use lemma_skip_subrange, lemma_skip_skip;

/// A field identifier inside a path.
pub struct FieldName(String);

impl View for FieldName {
    type V = Seq<char>;

    closed spec fn view(&self) -> Seq<char> {
        self.0@
    }
}

impl FieldName {
    /// The identifier's text.
    pub fn as_str(&self) -> (r: &str)
        ensures
            r@ == self@,
    {
        self.0.as_str()
    }

    /// Reads a field identifier at `pos`: not digit-led, at least one
    /// identifier character.
    pub fn parse(input: &Vec<char>, pos: usize) -> (r: Result<(FieldName, usize), SyntaxParseError>)
        requires
            pos <= input@.len(),
        ensures
            match r {
                Ok(p) => pos <= p.1 <= input@.len() && spec_parse_field_name(
                    input@.skip(pos as int),
                ) == Ok::<_, SpecParseError>((p.0@, input@.skip(p.1 as int))),
                Err(e) => spec_parse_field_name(input@.skip(pos as int)) == Err::<
                    (Seq<char>, Seq<char>),
                    _,
                >(e@),
            },
    {
        let ghost s = input@.skip(pos as int);
        if pos < input.len() && is_digit(input[pos]) {
            proof {
                assert(s[0] == input@[pos as int]);
            }
            return Err(SyntaxParseError::WrongFieldName);
        }
        let end = scan_ident(input, pos);
        if end == pos {
            return Err(SyntaxParseError::WrongFieldName);
        }
        let name = string_of_range(input, pos, end);
        Ok((FieldName(name), end))
    }
}

} // verus!
