//! The standard function library: the built-in pipeline functions.

pub mod booleans;
pub mod builtin;
pub mod debugging;
pub mod signed;
pub mod strings;
pub mod unsigned;

pub use self::builtin::BuiltinExecutor;


