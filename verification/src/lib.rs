//! A parser for single Rust-like declarations (structs, enums, unions and
//! function signatures) over a stream of lexical tokens, together with a
//! lossless re-emitter and small tree-editing helpers.

pub mod ast;
pub mod edit;
pub mod emit;
pub mod grammar;
pub mod laws;
pub mod lossless;
pub mod parse;
pub mod token;

pub use ast::{
    Attribute, Declaration, Enum, EnumVariant, Function, FunctionParameter, FunctionQualifiers,
    GenericParam, GenericParams, GenericPrefix, NamedField, ParseError, Struct, StructFields,
    TupleField, TyExpr, Union, VisMarker, WhereClause,
};
pub use edit::WhereClauseItem;
pub use emit::emit_declaration;
pub use parse::parse_declaration;
pub use token::{Delim, Token, TokenV};
