//! One pipeline stage: a function name and its literal arguments.

use vstd::prelude::*;

use crate::template::syntax::expected_token_error::ExpectedTokenError;
use crate::template::syntax::function_call_argument_token::{
    spec_args_view, FunctionCallArgumentToken,
};
use crate::template::syntax::function_name::FunctionName;
use crate::template::syntax::grammar::{
    spec_parse_args, spec_parse_call, SpecArg, SpecCall, SpecParseError,
};
use crate::template::syntax::syntax_parse_error::SyntaxParseError;
use crate::text::{
    char_to_string, lemma_skip_skip, lemma_skip_subrange, scan_ws, string_of_range,
};

verus! {

broadcast use lemma_skip_subrange, lemma_skip_skip;

/// A call site inside a pipeline, parsed from the template text.
pub struct FunctionCallToken {
    function_name: FunctionName,
    arguments: Vec<FunctionCallArgumentToken>,
}

impl View for FunctionCallToken {
    type V = SpecCall;

    closed spec fn view(&self) -> SpecCall {
        SpecCall { name: self.function_name@, args: spec_args_view(self.arguments@) }
    }
}

impl FunctionCallToken {
    /// The name the call refers to.
    pub fn get_function_name(&self) -> (r: &FunctionName)
        ensures
            r@ == self@.name,
    {
        &self.function_name
    }

    /// The literal arguments, in call order.
    pub fn get_arguments(&self) -> (r: &Vec<FunctionCallArgumentToken>)
        ensures
            spec_args_view(r@) == self@.args,
    {
        &self.arguments
    }

    /// Reads one call at `pos`: whitespace, the name, whitespace, and the
    /// parenthesised argument list with its trailing whitespace.
    pub fn parse(input: &Vec<char>, pos: usize) -> (r: Result<
        (FunctionCallToken, usize),
        SyntaxParseError,
    >)
        requires
            pos <= input@.len(),
        ensures
            match r {
                Ok(p) => pos <= p.1 <= input@.len() && spec_parse_call(input@.skip(pos as int))
                    == Ok::<_, SpecParseError>((p.0@, input@.skip(p.1 as int))),
                Err(e) => spec_parse_call(input@.skip(pos as int)) == Err::<
                    (SpecCall, Seq<char>),
                    _,
                >(e@),
            },
    {
        let ghost s = input@.skip(pos as int);
        let p1 = scan_ws(input, pos);
        let (function_name, p2) = match FunctionName::parse(input, p1) {
            Ok(pair) => pair,
            Err(e) => {
                return Err(e);
            },
        };
        let p3 = scan_ws(input, p2);
        if !(p3 < input.len() && input[p3] == '(') {
            proof {
                if p3 < input@.len() {
                    assert(input@.skip(p3 as int)[0] == input@[p3 as int]);
                }
                assert(input@.skip(p3 as int) =~= input@.subrange(
                    p3 as int,
                    input@.len() as int,
                ));
            }
            let token = char_to_string('(');
            let rest = string_of_range(input, p3, input.len());
            return Err(SyntaxParseError::ExpectedToken(ExpectedTokenError::new(token, rest)));
        }
        proof {
            assert(input@.skip(p3 as int)[0] == input@[p3 as int]);
        }
        match Self::parse_args(input, p3 + 1) {
            Ok((arguments, p4)) => Ok((FunctionCallToken { function_name, arguments }, p4)),
            Err(e) => Err(e),
        }
    }

    /// Reads the argument list after the opening parenthesis, consuming
    /// the closing parenthesis and the whitespace after it.
    #[verifier::rlimit(60)]
    fn parse_args(input: &Vec<char>, pos: usize) -> (r: Result<
        (Vec<FunctionCallArgumentToken>, usize),
        SyntaxParseError,
    >)
        requires
            pos <= input@.len(),
        ensures
            match r {
                Ok(p) => pos <= p.1 <= input@.len() && spec_parse_args(input@.skip(pos as int))
                    == Ok::<_, SpecParseError>((spec_args_view(p.0@), input@.skip(p.1 as int))),
                Err(e) => spec_parse_args(input@.skip(pos as int)) == Err::<
                    (Seq<SpecArg>, Seq<char>),
                    _,
                >(e@),
            },
    {
        let ghost s0 = input@.skip(pos as int);
        let mut arguments: Vec<FunctionCallArgumentToken> = Vec::new();
        let mut p: usize = pos;
        loop
            invariant
                pos <= p <= input@.len(),
                s0 == input@.skip(pos as int),
                spec_parse_args(s0) == match spec_parse_args(input@.skip(p as int)) {
                    Ok(rest) => Ok::<(Seq<SpecArg>, Seq<char>), SpecParseError>(
                        (spec_args_view(arguments@) + rest.0, rest.1),
                    ),
                    Err(e) => Err(e),
                },
            decreases input@.len() - p,
        {
            let p1 = scan_ws(input, p);
            proof {
                if p1 < input@.len() {
                    assert(input@.skip(p1 as int)[0] == input@[p1 as int]);
                }
            }
            if p1 < input.len() && input[p1] == ')' {
                let p2 = scan_ws(input, p1 + 1);
                proof {
                    assert(spec_args_view(arguments@) + Seq::<SpecArg>::empty() =~= spec_args_view(
                        arguments@,
                    ));
                }
                return Ok((arguments, p2));
            }
            let (arg, p2) = match FunctionCallArgumentToken::parse(input, p1) {
                Ok(pair) => pair,
                Err(e) => {
                    return Err(e);
                },
            };
            let p3 = scan_ws(input, p2);
            proof {
                if p3 < input@.len() {
                    assert(input@.skip(p3 as int)[0] == input@[p3 as int]);
                }
            }
            if p3 < input.len() && input[p3] == ')' {
                let p4 = scan_ws(input, p3 + 1);
                let ghost oldv = spec_args_view(arguments@);
                arguments.push(arg);
                proof {
                    assert(spec_args_view(arguments@) =~= oldv.push(arg@));
                    assert(oldv + seq![arg@] =~= spec_args_view(arguments@));
                    assert(spec_args_view(arguments@) + Seq::<SpecArg>::empty() =~= spec_args_view(
                        arguments@,
                    ));
                }
                return Ok((arguments, p4));
            }
            if p3 < input.len() && input[p3] == ',' {
                let ghost oldv = spec_args_view(arguments@);
                arguments.push(arg);
                proof {
                    assert(spec_args_view(arguments@) =~= oldv.push(arg@));
                    match spec_parse_args(input@.skip(p3 + 1)) {
                        Ok(pair) => {
                            assert(oldv + (seq![arg@] + pair.0) =~= spec_args_view(arguments@)
                                + pair.0);
                        },
                        Err(e) => {},
                    }
                }
                p = p3 + 1;
            } else {
                proof {
                    assert(input@.skip(p3 as int) =~= input@.subrange(
                        p3 as int,
                        input@.len() as int,
                    ));
                }
                let token = char_to_string(',');
                let rest = string_of_range(input, p3, input.len());
                return Err(SyntaxParseError::ExpectedToken(ExpectedTokenError::new(token, rest)));
            }
        }
    }
}

} // verus!
