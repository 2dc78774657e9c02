//! Token classification: turns lexical tokens into typed, span-tagged leaf
//! nodes (qualifiers, operators and base type names) for a syntax tree builder.
pub mod span;
pub mod token;
pub mod ast;
pub mod classify;
pub mod laws;
