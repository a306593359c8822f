//! A single-line substitution template engine.
//!
//! A template such as `"{self.user.name|string:trim()}"` embeds expressions
//! inside free text.  Each expression names a field path into a structured
//! input value and an optional pipeline of transformation functions.  The
//! template text is parsed and statically validated once, and the resulting
//! [`template::Template`] renders any number of input documents.

pub mod document;
pub mod function_executor;
pub mod functions;
pub mod template;
pub mod text;
