//! The capability a template function implements.

use vstd::prelude::*;

use crate::function_executor::function_error::{FunctionError, SpecFunctionError};
use crate::function_executor::function_schema::{FunctionSchema, SpecSchema};
use crate::function_executor::value::{SpecValue, Value};

verus! {

/// The shapes of a sequence of values.
pub open spec fn spec_values_view(values: Seq<Value>) -> Seq<SpecValue> {
    values.map_values(|v: Value| v@)
}

/// A function the engine can run inside a pipeline.
///
/// An implementation declares its schema and computes its result; the two
/// specification functions pin both down, so a registered function is a
/// pure function of its input and its literal arguments, and rendering
/// the same template against the same document always gives the same
/// output.
pub trait FunctionExecutor {
    /// The declared shape: the registry validates every call site against
    /// it at build time.
    spec fn spec_schema(&self) -> SpecSchema;

    /// What `call` returns, as a function of the input value and the
    /// literal arguments.
    spec fn spec_call(&self, input: SpecValue, args: Seq<SpecValue>) -> Result<
        SpecValue,
        SpecFunctionError,
    >;

    /// The function's name and argument declarations.
    fn schema(&self) -> (r: FunctionSchema)
        ensures
            r@ == self.spec_schema(),
    ;

    /// Runs the function.
    ///
    /// * `input` — the value resolved from the field or handed on by the
    ///   previous pipeline stage.
    /// * `arguments` — the literal arguments the template declared; the
    ///   build-time validation guarantees their number matches the schema.
    fn call(&self, input: Value, arguments: &[Value]) -> (r: Result<Value, FunctionError>)
        requires
            arguments@.len() == self.spec_schema().args.len(),
        ensures
            match r {
                Ok(v) => self.spec_call(input@, spec_values_view(arguments@)) == Ok::<
                    _,
                    SpecFunctionError,
                >(v@),
                Err(e) => self.spec_call(input@, spec_values_view(arguments@)) == Err::<
                    SpecValue,
                    _,
                >(e@),
            },
    ;
}

} // verus!
