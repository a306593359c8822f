//! The runtime value model and the function-executor capability.

pub mod function_argument;
pub mod function_argument_type;
pub mod function_error;
pub mod function_executor;
pub mod function_schema;
pub mod value;

pub use self::function_argument::FunctionArgument;
pub use self::function_error::FunctionError;
pub use self::function_executor::FunctionExecutor;
pub use self::function_schema::FunctionSchema;
pub use self::value::Value;
pub(crate) use self::function_argument_type::FunctionArgumentType;
