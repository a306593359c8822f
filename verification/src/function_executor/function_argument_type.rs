//! The literal-argument types a function can declare.

use vstd::prelude::*;

verus! {

/// The type of one declared argument position.  Only these four shapes
/// have a literal syntax in the template grammar, so only these four can
/// be declared.
#[derive(Debug, Clone, Copy, PartialEq, Eq, Structural)]
pub enum FunctionArgumentType {
    /// A quoted string literal.
    String,
    /// `true` or `false`.
    Bool,
    /// An unsigned 128-bit literal, suffixed `uint`.
    UInt,
    /// A signed 128-bit literal, suffixed `int`.
    Int,
}

} // verus!
