//! Precedence-aware text for arithmetic expression trees.
//!
//! An [`Expression`] is built from numbers, negation, digit concatenation and
//! the four binary operators. It has two textual forms: the rendered form,
//! which leaves out every pair of parentheses that the usual precedence makes
//! redundant, and the described form, which spells out the shape of the tree.
//! A [`Record`] pairs an expression with the number it is claimed to equal.
//!
//! Every function states the text it produces as a sequence of characters,
//! and Verus proves that the executable code produces exactly that text.
//! Nothing here parses, evaluates or prints: a caller builds the tree and
//! does what it likes with the string.
pub mod decimal;
pub mod display;
pub mod laws;
pub mod node;
pub mod text;

pub use display::WrapDisplay;
pub use node::{Expression, Record};
pub use text::{Describe, Render};
