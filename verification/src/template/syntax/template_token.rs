//! One bracketed expression of a template.

use vstd::prelude::*;

use crate::template::syntax::expected_token_error::ExpectedTokenError;
use crate::template::syntax::field_path::FieldPath;
use crate::template::syntax::field_read_token::{spec_calls_view, FieldReadToken};
use crate::template::syntax::function_call_token::FunctionCallToken;
use crate::template::syntax::grammar::{
    spec_parse_calls, spec_parse_field_read, spec_parse_template_token, SpecCall, SpecFieldRead,
    SpecParseError,
};
use crate::template::syntax::syntax_parse_error::SyntaxParseError;
use crate::template::syntax::unexpected_input_error::UnexpectedInputError;
use crate::text::{
    char_to_string, lemma_skip_skip, lemma_skip_subrange, not_open_pred, scan_to_open, scan_ws,
    spec_scan, string_of_range, string_to_chars,
};

verus! {

broadcast use lemma_skip_subrange, lemma_skip_skip;

/// An expression token: `{`, the word `self`, a path, a pipeline, `}`.
pub struct TemplateToken(FieldReadToken);

impl View for TemplateToken {
    type V = SpecFieldRead;

    closed spec fn view(&self) -> SpecFieldRead {
        self.0@
    }
}

fn starts_self(v: &Vec<char>, pos: usize) -> (r: bool)
    requires
        pos <= v@.len(),
    ensures
        r == crate::text::spec_starts_with(v@.skip(pos as int), seq!['s', 'e', 'l', 'f']),
{
    let ghost s = v@.skip(pos as int);
    let r = v.len() - pos >= 4 && v[pos] == 's' && v[pos + 1] == 'e' && v[pos + 2] == 'l' && v[pos
        + 3] == 'f';
    proof {
        if s.len() >= 4 {
            assert(s[0] == v@[pos as int]);
            assert(s[1] == v@[pos + 1]);
            assert(s[2] == v@[pos + 2]);
            assert(s[3] == v@[pos + 3]);
            assert(s.subrange(0, 4)[0] == s[0]);
            assert(s.subrange(0, 4)[1] == s[1]);
            assert(s.subrange(0, 4)[2] == s[2]);
            assert(s.subrange(0, 4)[3] == s[3]);
            if s[0] == 's' && s[1] == 'e' && s[2] == 'l' && s[3] == 'f' {
                assert(s.subrange(0, 4) =~= seq!['s', 'e', 'l', 'f']);
            }
        }
    }
    r
}

impl TemplateToken {
    /// The position of the first expression opener in the text, if any.
    pub fn find_start(input: &str) -> (r: Option<usize>)
        ensures
            match r {
                Some(i) => i as int == spec_scan(input@, not_open_pred()) && i < input@.len()
                    && input@[i as int] == '{',
                None => spec_scan(input@, not_open_pred()) == input@.len(),
            },
    {
        let chars = string_to_chars(input);
        let open = scan_to_open(&chars, 0);
        proof {
            assert(chars@.skip(0) =~= chars@);
            crate::text::lemma_scan_bounds(chars@, not_open_pred());
        }
        if open < chars.len() {
            Some(open)
        } else {
            None
        }
    }

    /// The expression's body.
    pub fn get_field_read_token(&self) -> (r: &FieldReadToken)
        ensures
            r@ == self@,
    {
        &self.0
    }

    /// Reads one expression at `pos`, which must hold the opening brace.
    pub fn parse(input: &Vec<char>, pos: usize) -> (r: Result<
        (TemplateToken, usize),
        SyntaxParseError,
    >)
        requires
            pos <= input@.len(),
        ensures
            match r {
                Ok(p) => pos <= p.1 <= input@.len() && spec_parse_template_token(
                    input@.skip(pos as int),
                ) == Ok::<_, SpecParseError>((p.0@, input@.skip(p.1 as int))),
                Err(e) => spec_parse_template_token(input@.skip(pos as int)) == Err::<
                    (SpecFieldRead, Seq<char>),
                    _,
                >(e@),
            },
    {
        let ghost s = input@.skip(pos as int);
        proof {
            if s.len() > 0 {
                assert(s[0] == input@[pos as int]);
            }
        }
        if !(pos < input.len() && input[pos] == '{') {
            proof {
                assert(input@.skip(pos as int) =~= input@.subrange(
                    pos as int,
                    input@.len() as int,
                ));
            }
            let token = char_to_string('{');
            let rest = string_of_range(input, pos, input.len());
            return Err(SyntaxParseError::ExpectedToken(ExpectedTokenError::new(token, rest)));
        }
        let p1 = scan_ws(input, pos + 1);
        if starts_self(input, p1) {
            Self::parse_field_read(input, p1 + 4)
        } else {
            proof {
                assert(input@.skip(p1 as int) =~= input@.subrange(
                    p1 as int,
                    input@.len() as int,
                ));
            }
            let rest = string_of_range(input, p1, input.len());
            Err(SyntaxParseError::UnexpectedInput(UnexpectedInputError::new(rest)))
        }
    }

    /// Reads what follows `self`: the path, the pipeline, and the closing
    /// brace.
    fn parse_field_read(input: &Vec<char>, pos: usize) -> (r: Result<
        (TemplateToken, usize),
        SyntaxParseError,
    >)
        requires
            pos <= input@.len(),
        ensures
            match r {
                Ok(p) => pos <= p.1 <= input@.len() && spec_parse_field_read(
                    input@.skip(pos as int),
                ) == Ok::<_, SpecParseError>((p.0@, input@.skip(p.1 as int))),
                Err(e) => spec_parse_field_read(input@.skip(pos as int)) == Err::<
                    (SpecFieldRead, Seq<char>),
                    _,
                >(e@),
            },
    {
        let (path, p2) = match FieldPath::parse(input, pos) {
            Ok(pair) => pair,
            Err(e) => {
                return Err(e);
            },
        };
        let p3 = scan_ws(input, p2);
        let (function_calls, p4) = match Self::parse_calls(input, p3) {
            Ok(pair) => pair,
            Err(e) => {
                return Err(e);
            },
        };
        let p5 = scan_ws(input, p4);
        proof {
            if p5 < input@.len() {
                assert(input@.skip(p5 as int)[0] == input@[p5 as int]);
            }
        }
        if p5 < input.len() && input[p5] == '}' {
            let token = TemplateToken(FieldReadToken::new(path, function_calls));
            Ok((token, p5 + 1))
        } else {
            proof {
                assert(input@.skip(p5 as int) =~= input@.subrange(
                    p5 as int,
                    input@.len() as int,
                ));
            }
            let token = char_to_string('}');
            let rest = string_of_range(input, p5, input.len());
            Err(SyntaxParseError::ExpectedToken(ExpectedTokenError::new(token, rest)))
        }
    }

    /// Reads the pipeline at `pos`: as many `|`-introduced calls as there
    /// are.
    fn parse_calls(input: &Vec<char>, pos: usize) -> (r: Result<
        (Vec<FunctionCallToken>, usize),
        SyntaxParseError,
    >)
        requires
            pos <= input@.len(),
        ensures
            match r {
                Ok(p) => pos <= p.1 <= input@.len() && spec_parse_calls(input@.skip(pos as int))
                    == Ok::<_, SpecParseError>((spec_calls_view(p.0@), input@.skip(p.1 as int))),
                Err(e) => spec_parse_calls(input@.skip(pos as int)) == Err::<
                    (Seq<SpecCall>, Seq<char>),
                    _,
                >(e@),
            },
    {
        let ghost s0 = input@.skip(pos as int);
        let mut calls: Vec<FunctionCallToken> = Vec::new();
        let mut p: usize = pos;
        while p < input.len() && input[p] == '|'
            invariant
                pos <= p <= input@.len(),
                s0 == input@.skip(pos as int),
                spec_parse_calls(s0) == match spec_parse_calls(input@.skip(p as int)) {
                    Ok(rest) => Ok::<(Seq<SpecCall>, Seq<char>), SpecParseError>(
                        (spec_calls_view(calls@) + rest.0, rest.1),
                    ),
                    Err(e) => Err(e),
                },
            decreases input@.len() - p,
        {
            proof {
                assert(input@.skip(p as int)[0] == input@[p as int]);
            }
            match FunctionCallToken::parse(input, p + 1) {
                Ok((call, p2)) => {
                    let ghost oldv = spec_calls_view(calls@);
                    calls.push(call);
                    proof {
                        assert(spec_calls_view(calls@) =~= oldv.push(call@));
                        match spec_parse_calls(input@.skip(p2 as int)) {
                            Ok(pair) => {
                                assert(oldv + (seq![call@] + pair.0) =~= spec_calls_view(calls@)
                                    + pair.0);
                            },
                            Err(e) => {},
                        }
                    }
                    p = p2;
                },
                Err(e) => {
                    return Err(e);
                },
            }
        }
        proof {
            if p < input@.len() {
                assert(input@.skip(p as int)[0] == input@[p as int]);
            }
            assert(spec_calls_view(calls@) + Seq::<SpecCall>::empty() =~= spec_calls_view(calls@));
        }
        Ok((calls, p))
    }
}

} // verus!
