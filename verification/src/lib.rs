//! The evaluator of a small class-based scripting language with lists,
//! string indexing, compound assignment and strong (type-pinned) variants of
//! the primitive values.
//!
//! - [`number`], [`token`], [`text`]: numbers as IEEE-754 bit patterns,
//!   tokens and runtime errors, decimal text.
//! - [`ast`]: the syntax tree that a parser hands over.
//! - [`value`], [`environment`], [`class`]: runtime values with value
//!   semantics, nested scopes, classes and instances.
//! - [`operators`], [`render`], [`place`]: what operators and assignments do
//!   to values, the text of a value, and storage that an expression names.
//! - [`semantics`]: what a program means, as a function on models.
//! - [`interpreter`]: the tree-walking interpreter, which computes exactly
//!   that function.
//! - [`laws`], [`shape`]: laws of the language, proved from the semantics.

pub mod ast;
pub mod class;
pub mod environment;
pub mod interpreter;
pub mod laws;
pub mod number;
pub mod operators;
pub mod place;
pub mod render;
pub mod semantics;
pub mod shape;
pub mod text;
pub mod token;
pub mod value;
