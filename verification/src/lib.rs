//! Lint rules for Cairo syntax trees: a `match` that stands for an `if` or an
//! `if let`, and an enum pattern with empty parentheses.
//!
//! The rules work on a plain description of the syntax ([`syntax`]) that a
//! host fills from the compiler's database, and hand back [`diagnostic::Diagnostic`]s
//! that point at the nodes they were raised by.

pub mod diagnostic;
pub mod empty_with_brackets;
pub mod laws;
pub mod plugin;
pub mod syntax;
pub mod text;
