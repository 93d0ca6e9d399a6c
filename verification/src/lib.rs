/// Classifying a declaration's parameters and return shape.
pub mod analyze;
/// Parsing the export annotation attached to a declaration.
pub mod annotation;
/// Walking a grouping and emitting its whole generated output.
pub mod assemble;
/// The declaration model the generator works on.
pub mod decl;
/// Generation-time errors.
pub mod errors;
/// The borrow discipline the generated wrappers enforce at call time.
pub mod runtime;
/// Rendering one declaration's wrapper and registration entry point.
pub mod synth;
