//! Source-to-source vectorization of scalar functions.
//!
//! Given the shape of a scalar function or method (name, visibility,
//! generics, ordered parameters, return type), this library validates that
//! the shape is eligible for vectorization and synthesizes the description
//! of a sibling function, named by appending `_vec`, that operates
//! elementwise over equal-length sequences of the original arguments.
//! It also provides verified elementwise dispatch routines that realize
//! the behaviour of the synthesized body at runtime.

pub mod diagnostic;
pub mod elementwise;
pub mod pipeline;
pub mod shape;
pub mod synthesize;

pub use diagnostic::Diagnostic;
pub use diagnostic::EligibilityError;
pub use pipeline::auto_vec;
pub use pipeline::Emission;
pub use shape::FunctionShape;
pub use shape::GenericParam;
pub use shape::Parameter;
pub use synthesize::GeneratedFunction;
