//! One literal argument of a function call.

use vstd::prelude::*;

use crate::template::syntax::grammar::{
    spec_parse_argument, spec_scan_quoted, SpecArg, SpecParseError,
};
use crate::text::spec_starts_with;
use crate::template::syntax::invalid_argument_template::InvalidArgumentTemplate;
use crate::template::syntax::syntax_parse_error::SyntaxParseError;
use crate::template::syntax::unexpected_input_error::UnexpectedInputError;
use crate::text::{
    chars_to_string, lemma_skip_skip, lemma_skip_subrange, parse_i128, parse_u128, scan_number,
    string_of_range,
};

verus! {

broadcast use lemma_skip_subrange, lemma_skip_skip;

/// A literal argument, parsed from the template text at build time.
pub enum FunctionCallArgumentToken {
    /// A quoted string, with `\'` unescaped.
    String(String),
    /// `true` or `false`.
    Bool(bool),
    /// Digits with the `uint` suffix.
    UInt(u128),
    /// An optional sign and digits, with the `int` suffix.
    Int(i128),
}

impl View for FunctionCallArgumentToken {
    type V = SpecArg;

    open spec fn view(&self) -> SpecArg {
        match self {
            FunctionCallArgumentToken::String(s) => SpecArg::String(s@),
            FunctionCallArgumentToken::Bool(b) => SpecArg::Bool(*b),
            FunctionCallArgumentToken::UInt(n) => SpecArg::UInt(*n),
            FunctionCallArgumentToken::Int(n) => SpecArg::Int(*n),
        }
    }
}

/// The shapes of a sequence of argument tokens.
pub open spec fn spec_args_view(args: Seq<FunctionCallArgumentToken>) -> Seq<SpecArg> {
    args.map_values(|a: FunctionCallArgumentToken| a@)
}

fn starts_true(v: &Vec<char>, pos: usize) -> (r: bool)
    requires
        pos <= v@.len(),
    ensures
        r == spec_starts_with(v@.skip(pos as int), seq!['t', 'r', 'u', 'e']),
{
    let ghost s = v@.skip(pos as int);
    let r = v.len() - pos >= 4 && v[pos] == 't' && v[pos + 1] == 'r' && v[pos + 2] == 'u' && v[pos
        + 3] == 'e';
    proof {
        if s.len() >= 4 {
            assert(s[0] == v@[pos as int]);
            assert(s[1] == v@[pos + 1]);
            assert(s[2] == v@[pos + 2]);
            assert(s[3] == v@[pos + 3]);
            assert(s.subrange(0, 4)[0] == s[0]);
            assert(s.subrange(0, 4)[1] == s[1]);
            assert(s.subrange(0, 4)[2] == s[2]);
            assert(s.subrange(0, 4)[3] == s[3]);
            if s[0] == 't' && s[1] == 'r' && s[2] == 'u' && s[3] == 'e' {
                assert(s.subrange(0, 4) =~= seq!['t', 'r', 'u', 'e']);
            }
        }
    }
    r
}

fn starts_false(v: &Vec<char>, pos: usize) -> (r: bool)
    requires
        pos <= v@.len(),
    ensures
        r == spec_starts_with(v@.skip(pos as int), seq!['f', 'a', 'l', 's', 'e']),
{
    let ghost s = v@.skip(pos as int);
    let r = v.len() - pos >= 5 && v[pos] == 'f' && v[pos + 1] == 'a' && v[pos + 2] == 'l' && v[pos
        + 3] == 's' && v[pos + 4] == 'e';
    proof {
        if s.len() >= 5 {
            assert(s[0] == v@[pos as int]);
            assert(s[1] == v@[pos + 1]);
            assert(s[2] == v@[pos + 2]);
            assert(s[3] == v@[pos + 3]);
            assert(s[4] == v@[pos + 4]);
            assert(s.subrange(0, 5)[0] == s[0]);
            assert(s.subrange(0, 5)[1] == s[1]);
            assert(s.subrange(0, 5)[2] == s[2]);
            assert(s.subrange(0, 5)[3] == s[3]);
            assert(s.subrange(0, 5)[4] == s[4]);
            if s[0] == 'f' && s[1] == 'a' && s[2] == 'l' && s[3] == 's' && s[4] == 'e' {
                assert(s.subrange(0, 5) =~= seq!['f', 'a', 'l', 's', 'e']);
            }
        }
    }
    r
}

fn starts_uint(v: &Vec<char>, pos: usize) -> (r: bool)
    requires
        pos <= v@.len(),
    ensures
        r == spec_starts_with(v@.skip(pos as int), seq!['u', 'i', 'n', 't']),
{
    let ghost s = v@.skip(pos as int);
    let r = v.len() - pos >= 4 && v[pos] == 'u' && v[pos + 1] == 'i' && v[pos + 2] == 'n' && v[pos
        + 3] == 't';
    proof {
        if s.len() >= 4 {
            assert(s[0] == v@[pos as int]);
            assert(s[1] == v@[pos + 1]);
            assert(s[2] == v@[pos + 2]);
            assert(s[3] == v@[pos + 3]);
            assert(s.subrange(0, 4)[0] == s[0]);
            assert(s.subrange(0, 4)[1] == s[1]);
            assert(s.subrange(0, 4)[2] == s[2]);
            assert(s.subrange(0, 4)[3] == s[3]);
            if s[0] == 'u' && s[1] == 'i' && s[2] == 'n' && s[3] == 't' {
                assert(s.subrange(0, 4) =~= seq!['u', 'i', 'n', 't']);
            }
        }
    }
    r
}

fn starts_int(v: &Vec<char>, pos: usize) -> (r: bool)
    requires
        pos <= v@.len(),
    ensures
        r == spec_starts_with(v@.skip(pos as int), seq!['i', 'n', 't']),
{
    let ghost s = v@.skip(pos as int);
    let r = v.len() - pos >= 3 && v[pos] == 'i' && v[pos + 1] == 'n' && v[pos + 2] == 't';
    proof {
        if s.len() >= 3 {
            assert(s[0] == v@[pos as int]);
            assert(s[1] == v@[pos + 1]);
            assert(s[2] == v@[pos + 2]);
            assert(s.subrange(0, 3)[0] == s[0]);
            assert(s.subrange(0, 3)[1] == s[1]);
            assert(s.subrange(0, 3)[2] == s[2]);
            if s[0] == 'i' && s[1] == 'n' && s[2] == 't' {
                assert(s.subrange(0, 3) =~= seq!['i', 'n', 't']);
            }
        }
    }
    r
}

impl FunctionCallArgumentToken {
    /// Reads one literal argument at `pos`: a quoted string, a boolean
    /// word, or a suffixed number.
    pub fn parse(input: &Vec<char>, pos: usize) -> (r: Result<
        (FunctionCallArgumentToken, usize),
        SyntaxParseError,
    >)
        requires
            pos <= input@.len(),
        ensures
            match r {
                Ok(p) => pos <= p.1 <= input@.len() && spec_parse_argument(input@.skip(pos as int))
                    == Ok::<_, SpecParseError>((p.0@, input@.skip(p.1 as int))),
                Err(e) => spec_parse_argument(input@.skip(pos as int)) == Err::<
                    (SpecArg, Seq<char>),
                    _,
                >(e@),
            },
    {
        let ghost s = input@.skip(pos as int);
        if pos < input.len() && input[pos] == '\'' {
            proof {
                assert(s[0] == input@[pos as int]);
            }
            return Self::parse_string(input, pos);
        }
        proof {
            if s.len() > 0 {
                assert(s[0] == input@[pos as int]);
            }
        }
        if starts_true(input, pos) {
            return Ok((FunctionCallArgumentToken::Bool(true), pos + 4));
        }
        if starts_false(input, pos) {
            return Ok((FunctionCallArgumentToken::Bool(false), pos + 5));
        }
        let end = scan_number(input, pos);
        if starts_uint(input, end) {
            match parse_u128(input, pos, end) {
                Ok(n) => Ok((FunctionCallArgumentToken::UInt(n), end + 4)),
                Err(k) => Err(SyntaxParseError::ParseInt(k)),
            }
        } else if starts_int(input, end) {
            match parse_i128(input, pos, end) {
                Ok(n) => Ok((FunctionCallArgumentToken::Int(n), end + 3)),
                Err(k) => Err(SyntaxParseError::ParseInt(k)),
            }
        } else {
            let template = string_of_range(input, pos, end);
            let rest = string_of_range(input, end, input.len());
            proof {
                assert(input@.skip(end as int) =~= input@.subrange(end as int, input@.len() as int));
            }
            Err(SyntaxParseError::InvalidArgumentTemplate(InvalidArgumentTemplate::new(
                template,
                rest,
            )))
        }
    }

    /// Reads a quoted string at `pos`, which must hold the opening quote:
    /// characters up to an unescaped closing quote, with `\'` unescaped.
    fn parse_string(input: &Vec<char>, pos: usize) -> (r: Result<
        (FunctionCallArgumentToken, usize),
        SyntaxParseError,
    >)
        requires
            pos < input@.len(),
            input@[pos as int] == '\'',
        ensures
            match r {
                Ok(p) => pos <= p.1 <= input@.len() && spec_parse_argument(input@.skip(pos as int))
                    == Ok::<_, SpecParseError>((p.0@, input@.skip(p.1 as int))),
                Err(e) => spec_parse_argument(input@.skip(pos as int)) == Err::<
                    (SpecArg, Seq<char>),
                    _,
                >(e@),
            },
    {
        let n = input.len();
        let ghost s = input@.skip(pos as int);
        let ghost t0 = input@.skip(pos + 1);
        proof {
            assert(s[0] == input@[pos as int]);
        }
        let mut content: Vec<char> = Vec::new();
        let mut p: usize = pos + 1;
        loop
            invariant
                n == input@.len(),
                pos + 1 <= p <= input@.len(),
                s == input@.skip(pos as int),
                t0 == input@.skip(pos + 1),
                s.len() > 0 && s[0] == '\'',
                spec_scan_quoted(t0) == match spec_scan_quoted(input@.skip(p as int)) {
                    Some(rest) => Some::<(Seq<char>, Seq<char>)>((content@ + rest.0, rest.1)),
                    None => None,
                },
            decreases input@.len() - p,
        {
            let ghost t = input@.skip(p as int);
            if p == n {
                let text = string_of_range(input, pos + 1, input.len());
                proof {
                    assert(input@.skip(pos + 1) =~= input@.subrange(
                        pos + 1,
                        input@.len() as int,
                    ));
                }
                return Err(SyntaxParseError::UnexpectedInput(UnexpectedInputError::new(text)));
            }
            proof {
                assert(t[0] == input@[p as int]);
                if t.len() >= 2 {
                    assert(t[1] == input@[p + 1]);
                }
            }
            let c = input[p];
            if c == '\'' {
                proof {
                    assert(content@ + Seq::<char>::empty() =~= content@);
                }
                let text = chars_to_string(&content);
                return Ok((FunctionCallArgumentToken::String(text), p + 1));
            }
            if c == '\\' && p + 1 < input.len() && input[p + 1] == '\'' {
                let ghost oldc = content@;
                content.push('\'');
                proof {
                    match spec_scan_quoted(input@.skip(p + 2)) {
                        Some(pair) => {
                            assert(oldc + (seq!['\''] + pair.0) =~= content@ + pair.0);
                        },
                        None => {},
                    }
                }
                p = p + 2;
            } else {
                let ghost oldc = content@;
                content.push(c);
                proof {
                    match spec_scan_quoted(input@.skip(p + 1)) {
                        Some(pair) => {
                            assert(oldc + (seq![t[0]] + pair.0) =~= content@ + pair.0);
                        },
                        None => {},
                    }
                }
                p = p + 1;
            }
        }
    }
}

} // verus!
