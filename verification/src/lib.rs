//! Front-end and value core of the Vortex experimental language.
//!
//! The crate has two independent halves:
//! - a grammar-driven parser: a declarative rule set (a PEG) is matched
//!   against source text, yielding a syntax tree or a structured error;
//! - a typed runtime value: a closed set of scalar variants with a strict,
//!   variant-matched arithmetic composition law.

use vstd::prelude::*;

pub mod decimal;
pub mod grammar;
pub mod parse;
pub mod value;

verus! {

pub use crate::parse::parse;
pub use crate::parse::ParseError;
pub use crate::parse::SyntaxTree;
pub use crate::value::TypeMismatch;
pub use crate::value::Value;

} // verus!
