//! Front end and evaluation core of the jinko scripting language.
//!
//! Source text is turned into a tree of [`instruction::Instruction`] nodes by
//! the grammar rules of [`parser`], and the tree is evaluated against a
//! [`context::Context`]. Every function states what it computes over the
//! mathematical view of its arguments, and the statements are proved.

pub mod builtins;
pub mod context;
pub mod error;
pub mod instruction;
pub mod laws;
pub mod names;
pub mod parser;
pub mod text;
pub mod value;
