//! A small toolkit for grammars of declarations: a reader over text, and
//! parse trees that derive themselves from it.

pub mod grammar;
pub mod reader;
