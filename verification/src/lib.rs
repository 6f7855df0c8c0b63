//! Code generators for two derives over struct declarations: a fluent
//! builder type, and a customizable debug-formatting implementation.
//!
//! The input declaration is given as plain data (`model::TypeDecl`): the
//! struct's identifier, its generic parameters, and its named fields, each
//! field carrying its type expression's source text and the attributes
//! attached to it. Each generator either produces the replacement source
//! text as a `String`, pinned down exactly by its contract, or reports why
//! the input was rejected.

pub mod builder;
pub mod debug;
pub mod model;
pub mod text;
