//! Parsing of template text into a token sequence.

pub mod expected_token_error;
pub mod field;
pub mod field_name;
pub mod field_path;
pub mod field_read_token;
pub mod function_call_argument_token;
pub mod function_call_token;
pub mod function_name;
pub mod grammar;
pub mod invalid_argument_template;
pub mod syntax;
pub mod syntax_parse_error;
pub mod template_token;
pub mod token;
pub mod unexpected_input_error;
