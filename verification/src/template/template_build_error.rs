//! The errors a template build can raise, re-exported in one place.

pub use crate::template::argument_types_differ_error::ArgumentTypesDifferError;
pub use crate::template::build_error::BuildError as TemplateBuildError;
pub use crate::template::syntax::expected_token_error::ExpectedTokenError;
pub use crate::template::syntax::syntax_parse_error::SyntaxParseError as ParseError;
pub use crate::template::syntax::unexpected_input_error::UnexpectedInputError;
