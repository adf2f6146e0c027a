//! A translator from a small graph-description language to a dot-like
//! textual graph language.
//!
//! The library has two halves: a recursive-descent parser that turns source
//! text into an abstract syntax tree ([`ast::Statement`]), and a code
//! generator that renders the tree as text for an external rendering engine.
//! The grammar itself is written down as spec functions in [`grammar`], and
//! the parser is verified to recognize exactly that grammar; the generator is
//! verified to produce exactly the text described by the spec functions in
//! [`codegen`].

pub mod ast;
pub mod codegen;
pub mod grammar;
pub mod laws;
pub mod parser;
