//! Generic parameter lists and where-clauses of a declaration: a typed tree,
//! a parser from tokens into it, and the views that render it back to tokens.
//!
//! - `token`: the token type and the spec of delimited token sequences.
//! - `delimited`: a list of items with delimiters between them.
//! - `generics`: the tree: `Generics`, its parameters, bounds and where-clause.
//! - `printing`: the tokens of every node and of the four views of a
//!   `Generics`, as spec functions and as the code that appends them.
//! - `grammar`: where each production ends, as spec functions.
//! - `parsing`: the parsers, each exact with respect to `grammar`.

pub mod token;
pub mod delimited;
pub mod generics;
pub mod printing;
pub mod grammar;
pub mod parsing;
