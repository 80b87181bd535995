//! Derives an OpenAPI-style document description from a declarative RPC
//! interface definition.
//!
//! The pipeline is linear: [`parse::parse`] turns the raw invocation
//! arguments and the interface item into an [`parse::Ast`];
//! [`analyze::analyze`] walks the interface's methods, extracts the schema
//! directives, and builds an [`analyze::Model`] (or an aggregate of every
//! diagnostic found); [`lower::lower`] maps the model to the intermediate
//! representation; and [`codegen::codegen`] builds the description of the
//! emitted artifact: one operation per method, a paths collection keyed by
//! method name, and a components collection of the registered reference
//! schemas.
//!
//! The interface definition itself reaches this crate as plain values (names,
//! attribute trees, span indices): the host front end parses the raw token
//! stream, hands the resulting tree over in that form, and renders the
//! computed document description back to source text.

pub mod analyze;
pub mod ast;
pub mod codegen;
pub mod diag;
pub mod laws;
pub mod lower;
pub mod parse;
pub mod text;
pub mod viewext;
