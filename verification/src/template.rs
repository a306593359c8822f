//! The template: grammar, build-time validation, and the render engine.

pub mod laws;
pub mod syntax;
pub mod template_build_error;
pub mod template_error;

mod argument_types_differ_error;
mod build_error;
mod template;
mod template_builder;

pub use self::argument_types_differ_error::ArgumentTypesDifferError;
pub use self::build_error::BuildError;
pub use self::build_error::SpecBuildError;
pub use self::template::Template;
pub use self::template_builder::TemplateBuilder;
