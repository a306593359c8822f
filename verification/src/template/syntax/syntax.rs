//! A parsed template: its ordered token sequence.

use vstd::prelude::*;

use crate::template::syntax::grammar::{
    spec_parse_syntax, spec_parse_tokens, SpecParseError, SpecToken,
};
use crate::template::syntax::syntax_parse_error::SyntaxParseError;
use crate::template::syntax::template_token::TemplateToken;
use crate::template::syntax::token::{spec_tokens_view, Token};
use crate::text::{
    lemma_skip_skip, lemma_skip_subrange, scan_to_open, string_of_range, string_to_chars,
};

verus! {

broadcast use lemma_skip_subrange, lemma_skip_skip;

/// The ordered token sequence of one parsed template.
pub struct Syntax {
    tokens: Vec<Token>,
}

impl View for Syntax {
    type V = Seq<SpecToken>;

    closed spec fn view(&self) -> Seq<SpecToken> {
        spec_tokens_view(self.tokens@)
    }
}

impl Syntax {
    /// The tokens, in source order.
    pub fn iter_tokens(&self) -> (r: &Vec<Token>)
        ensures
            spec_tokens_view(r@) == self@,
    {
        &self.tokens
    }

    /// Parses template text into its token sequence: literal text up to
    /// each `{`, then the expression it opens; an input with no tokens at
    /// all is refused.
    #[verifier::rlimit(60)]
    pub fn from_str(text: &str) -> (r: Result<Syntax, SyntaxParseError>)
        ensures
            match r {
                Ok(s) => spec_parse_syntax(text@) == Ok::<_, SpecParseError>(s@),
                Err(e) => spec_parse_syntax(text@) == Err::<Seq<SpecToken>, _>(e@),
            },
    {
        let input = string_to_chars(text);
        let mut tokens: Vec<Token> = Vec::new();
        let mut p: usize = 0;
        proof {
            assert(input@.skip(0) =~= input@);
            assert(spec_tokens_view(tokens@) =~= Seq::<SpecToken>::empty());
            match spec_parse_tokens(input@) {
                Ok(ts) => {
                    assert(spec_tokens_view(tokens@) + ts =~= ts);
                },
                Err(e) => {},
            }
        }
        loop
            invariant_except_break
                0 <= p <= input@.len(),
                spec_parse_tokens(input@) == match spec_parse_tokens(input@.skip(p as int)) {
                    Ok(ts) => Ok::<Seq<SpecToken>, SpecParseError>(spec_tokens_view(tokens@) + ts),
                    Err(e) => Err(e),
                },
            invariant
                input@ == text@,
            ensures
                spec_parse_tokens(input@) == Ok::<Seq<SpecToken>, SpecParseError>(
                    spec_tokens_view(tokens@),
                ),
            decreases input@.len() - p,
        {
            let ghost sp = input@.skip(p as int);
            let ghost oldv = spec_tokens_view(tokens@);
            let open = scan_to_open(&input, p);
            let ghost n: int = open - p;
            if open == input.len() {
                if p < input.len() {
                    let text_piece = string_of_range(&input, p, input.len());
                    tokens.push(Token::Text(text_piece));
                    proof {
                        assert(sp =~= input@.subrange(p as int, input@.len() as int));
                        assert(spec_tokens_view(tokens@) =~= oldv.push(SpecToken::Text(sp)));
                        assert(oldv + seq![SpecToken::Text(sp)] =~= spec_tokens_view(tokens@));
                    }
                } else {
                    proof {
                        assert(sp =~= Seq::<char>::empty());
                    }
                }
                proof {
                    assert(spec_tokens_view(tokens@) + Seq::<SpecToken>::empty()
                        =~= spec_tokens_view(tokens@));
                }
                break;
            }
            if open > p {
                let text_piece = string_of_range(&input, p, open);
                tokens.push(Token::Text(text_piece));
            }
            match TemplateToken::parse(&input, open) {
                Ok((tt, p2)) => {
                    tokens.push(Token::Template(tt));
                    proof {
                        crate::template::syntax::grammar::lemma_parse_template_token_lt(
                            input@.skip(open as int),
                        );
                        let lead: Seq<SpecToken> = if n > 0 {
                            seq![SpecToken::Text(sp.subrange(0, n))]
                        } else {
                            Seq::<SpecToken>::empty()
                        };
                        assert(spec_tokens_view(tokens@) =~= oldv + lead + seq![
                            SpecToken::Expression(tt@),
                        ]);
                        match spec_parse_tokens(input@.skip(p2 as int)) {
                            Ok(ts2) => {
                                assert(oldv + ((lead + seq![SpecToken::Expression(tt@)]) + ts2)
                                    =~= spec_tokens_view(tokens@) + ts2);
                            },
                            Err(e) => {},
                        }
                    }
                    p = p2;
                },
                Err(e) => {
                    return Err(e);
                },
            }
        }
        if tokens.len() == 0 {
            return Err(SyntaxParseError::TemplateIsEmpty);
        }
        proof {
            assert(spec_tokens_view(tokens@).len() > 0);
        }
        Ok(Syntax { tokens })
    }
}

} // verus!
