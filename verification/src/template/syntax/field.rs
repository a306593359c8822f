//! One path segment: a named field or an unsigned index.

use vstd::prelude::*;

use crate::template::syntax::field_name::FieldName;
use crate::template::syntax::grammar::{spec_parse_field, SpecField, SpecParseError};
use crate::template::syntax::syntax_parse_error::SyntaxParseError;
use crate::text::{is_digit, scan_digits, parse_usize, lemma_skip_subrange, lemma_skip_skip};

verus! {

broadcast use lemma_skip_subrange, lemma_skip_skip;

/// One segment of a field path.
pub enum Field {
    /// A named field of an associative node.
    Field(FieldName),
    /// A position inside a sequence node.
    Index(usize),
}

impl View for Field {
    type V = SpecField;

    open spec fn view(&self) -> SpecField {
        match self {
            Field::Field(name) => SpecField::Named(name@),
            Field::Index(i) => SpecField::Index(*i as int),
        }
    }
}

impl Field {
    /// Reads one path segment at `pos`: a decimal index when digit-led,
    /// else an identifier.
    pub fn parse(input: &Vec<char>, pos: usize) -> (r: Result<(Field, usize), SyntaxParseError>)
        requires
            pos <= input@.len(),
        ensures
            match r {
                Ok(p) => pos <= p.1 <= input@.len() && spec_parse_field(input@.skip(pos as int))
                    == Ok::<_, SpecParseError>((p.0@, input@.skip(p.1 as int))),
                Err(e) => spec_parse_field(input@.skip(pos as int)) == Err::<
                    (SpecField, Seq<char>),
                    _,
                >(e@),
            },
    {
        let ghost s = input@.skip(pos as int);
        if pos == input.len() {
            return Err(SyntaxParseError::WrongFieldName);
        }
        proof {
            assert(s[0] == input@[pos as int]);
        }
        if is_digit(input[pos]) {
            let end = scan_digits(input, pos);
            match parse_usize(input, pos, end) {
                Ok(n) => Ok((Field::Index(n), end)),
                Err(k) => Err(SyntaxParseError::ParseInt(k)),
            }
        } else {
            match FieldName::parse(input, pos) {
                Ok((name, end)) => Ok((Field::Field(name), end)),
                Err(e) => Err(e),
            }
        }
    }
}

} // verus!
