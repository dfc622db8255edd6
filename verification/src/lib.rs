//! Builders for SQL text that uses PostgreSQL's `pg_trgm` trigram extension.
//!
//! The library has two halves.  The raw half (`constants`, `helpers`,
//! `index`) produces SQL fragments as plain strings: operator clauses such
//! as `name % $1`, function calls such as `similarity(name, $1)`, and the
//! DDL statements that create trigram GIN and GiST indexes.  The typed half
//! (`expr`, `expression_methods`, `array_expression_methods`, `functions`,
//! `helper_functions`) builds expression nodes tagged with their SQL result
//! type, so that a trigram operator can only be applied to a text-typed
//! expression.
//!
//! Every builder's contract states the exact SQL text it returns.  No
//! quoting or escaping is performed anywhere: the caller is responsible for
//! validating the identifiers and placeholders it passes in, exactly as when
//! writing the SQL by hand.

pub mod array_expression_methods;
pub mod constants;
pub mod expr;
pub mod expression_methods;
pub mod functions;
pub mod helper_functions;
pub mod helpers;
pub mod index;
