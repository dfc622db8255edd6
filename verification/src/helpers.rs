//! Raw SQL fragment builders.
//!
//! Each helper concatenates the caller's column and placeholder text around
//! one `pg_trgm` operator token or function name and returns the fragment as
//! a plain string.  Nothing is quoted or escaped: the caller must pass
//! identifiers and placeholders it already trusts.

use vstd::prelude::*;

use crate::constants::DISTANCE;
use crate::constants::SIMILAR;
use crate::constants::STRICT_WORD_DISTANCE_RIGHT;
use crate::constants::STRICT_WORD_SIMILAR_RIGHT;
use crate::constants::WORD_DISTANCE_RIGHT;
use crate::constants::WORD_SIMILAR_RIGHT;

verus! {

/// Builds a similarity filter clause using the ` % ` operator.
pub fn similarity_filter(column: &str, param: &str) -> (r: String)
    ensures
        r@ == column@ + SIMILAR@ + param@,
{
    let mut s = column.to_owned();
    s.append(SIMILAR);
    s.append(param);
    s
}

/// Builds a word similarity filter clause using the ` %> ` operator.
pub fn word_similarity_filter(column: &str, param: &str) -> (r: String)
    ensures
        r@ == column@ + WORD_SIMILAR_RIGHT@ + param@,
{
    let mut s = column.to_owned();
    s.append(WORD_SIMILAR_RIGHT);
    s.append(param);
    s
}

/// Builds a strict word similarity filter clause using the ` %>> ` operator.
pub fn strict_word_similarity_filter(column: &str, param: &str) -> (r: String)
    ensures
        r@ == column@ + STRICT_WORD_SIMILAR_RIGHT@ + param@,
{
    let mut s = column.to_owned();
    s.append(STRICT_WORD_SIMILAR_RIGHT);
    s.append(param);
    s
}

/// Builds a distance ordering clause using the ` <-> ` operator.
pub fn distance_order(column: &str, param: &str) -> (r: String)
    ensures
        r@ == column@ + DISTANCE@ + param@,
{
    let mut s = column.to_owned();
    s.append(DISTANCE);
    s.append(param);
    s
}

/// Builds a word distance ordering clause using the ` <->> ` operator.
pub fn word_distance_order(column: &str, param: &str) -> (r: String)
    ensures
        r@ == column@ + WORD_DISTANCE_RIGHT@ + param@,
{
    let mut s = column.to_owned();
    s.append(WORD_DISTANCE_RIGHT);
    s.append(param);
    s
}

/// Builds a strict word distance ordering clause using the ` <->>> `
/// operator.
pub fn strict_word_distance_order(column: &str, param: &str) -> (r: String)
    ensures
        r@ == column@ + STRICT_WORD_DISTANCE_RIGHT@ + param@,
{
    let mut s = column.to_owned();
    s.append(STRICT_WORD_DISTANCE_RIGHT);
    s.append(param);
    s
}

/// Builds a `similarity(a, b)` function call.
pub fn similarity_fn(a: &str, b: &str) -> (r: String)
    ensures
        r@ == "similarity("@ + a@ + ", "@ + b@ + ")"@,
{
    let mut s = "similarity(".to_owned();
    s.append(a);
    s.append(", ");
    s.append(b);
    s.append(")");
    s
}

/// Builds a `word_similarity(a, b)` function call.
pub fn word_similarity_fn(a: &str, b: &str) -> (r: String)
    ensures
        r@ == "word_similarity("@ + a@ + ", "@ + b@ + ")"@,
{
    let mut s = "word_similarity(".to_owned();
    s.append(a);
    s.append(", ");
    s.append(b);
    s.append(")");
    s
}

/// Builds a `strict_word_similarity(a, b)` function call.
pub fn strict_word_similarity_fn(a: &str, b: &str) -> (r: String)
    ensures
        r@ == "strict_word_similarity("@ + a@ + ", "@ + b@ + ")"@,
{
    let mut s = "strict_word_similarity(".to_owned();
    s.append(a);
    s.append(", ");
    s.append(b);
    s.append(")");
    s
}

/// Builds a `show_trgm(text)` function call, which lists the trigrams the
/// server extracts from the given text.
pub fn show_trgm_fn(text: &str) -> (r: String)
    ensures
        r@ == "show_trgm("@ + text@ + ")"@,
{
    let mut s = "show_trgm(".to_owned();
    s.append(text);
    s.append(")");
    s
}

} // verus!
