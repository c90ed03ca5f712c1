//! A GraphQL client code generator core.
//!
//! Given an in-memory schema model and a parsed operation document, the
//! resolver walks each selection set against the schema's type graph and
//! produces a language-agnostic intermediate representation (IR) of the
//! response types to generate: records for object selections, discriminated
//! sums for interface and union selections, with deterministic prefix-derived
//! names.

pub mod casing;
pub mod codegen_options;
pub mod constants;
pub mod deprecation;
pub mod errors;
pub mod field_type;
pub mod interfaces;
pub mod ir;
pub mod laws;
pub mod objects;
pub mod parsing;
pub mod query;
pub mod resolver;
pub mod schema;
pub mod selection;
pub mod text;
pub mod unions;
