//! One token of a parsed template.

use vstd::prelude::*;

use crate::template::syntax::grammar::SpecToken;
use crate::template::syntax::template_token::TemplateToken;

verus! {

/// Literal text, or one bracketed expression.
pub enum Token {
    /// Text copied to the output verbatim.
    Text(String),
    /// An expression to resolve and transform at render time.
    Template(TemplateToken),
}

impl View for Token {
    type V = SpecToken;

    open spec fn view(&self) -> SpecToken {
        match self {
            Token::Text(s) => SpecToken::Text(s@),
            Token::Template(t) => SpecToken::Expression(t@),
        }
    }
}

/// The shapes of a sequence of tokens.
pub open spec fn spec_tokens_view(tokens: Seq<Token>) -> Seq<SpecToken> {
    tokens.map_values(|t: Token| t@)
}

} // verus!
