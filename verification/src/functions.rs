//! The `pg_trgm` SQL functions as typed expression builders.
//!
//! Each builder renders a function call around its argument expressions and
//! tags the result with the function's SQL result type.

use vstd::prelude::*;

use crate::expr::Expr;
use crate::expr::Float;
use crate::expr::Text;
use crate::expr::TextArray;

verus! {

/// The SQL text of `array_to_string(array, delimiter)`, which concatenates
/// the array's elements with the delimiter between them.
pub open spec fn array_to_string_sql(array: Seq<char>, delimiter: Seq<char>) -> Seq<char> {
    "array_to_string("@ + array + ", "@ + delimiter + ")"@
}

/// `similarity(a, b)`: how similar the two texts' trigram sets are, from
/// zero (nothing shared) to one (identical).
pub fn similarity(a: Expr<Text>, b: Expr<Text>) -> (r: Expr<Float>)
    ensures
        r@ == "similarity("@ + a@ + ", "@ + b@ + ")"@,
{
    let mut s = "similarity(".to_owned();
    s.append(a.as_sql());
    s.append(", ");
    s.append(b.as_sql());
    s.append(")");
    Expr::from_string(s)
}

/// `word_similarity(a, b)`: the greatest similarity between `a` and any
/// continuous extent of `b`'s trigrams.
pub fn word_similarity(a: Expr<Text>, b: Expr<Text>) -> (r: Expr<Float>)
    ensures
        r@ == "word_similarity("@ + a@ + ", "@ + b@ + ")"@,
{
    let mut s = "word_similarity(".to_owned();
    s.append(a.as_sql());
    s.append(", ");
    s.append(b.as_sql());
    s.append(")");
    Expr::from_string(s)
}

/// `strict_word_similarity(a, b)`: like `word_similarity`, but the extent's
/// boundaries must fall on word boundaries.
pub fn strict_word_similarity(a: Expr<Text>, b: Expr<Text>) -> (r: Expr<Float>)
    ensures
        r@ == "strict_word_similarity("@ + a@ + ", "@ + b@ + ")"@,
{
    let mut s = "strict_word_similarity(".to_owned();
    s.append(a.as_sql());
    s.append(", ");
    s.append(b.as_sql());
    s.append(")");
    Expr::from_string(s)
}

/// `show_trgm(text)`: the array of trigrams the server extracts from the
/// text; mostly useful for debugging.
pub fn show_trgm(text: Expr<Text>) -> (r: Expr<TextArray>)
    ensures
        r@ == "show_trgm("@ + text@ + ")"@,
{
    let mut s = "show_trgm(".to_owned();
    s.append(text.as_sql());
    s.append(")");
    Expr::from_string(s)
}

/// `show_limit()`: the session's similarity threshold for the `%` operator.
pub fn show_limit() -> (r: Expr<Float>)
    ensures
        r@ == "show_limit()"@,
{
    Expr::from_sql("show_limit()")
}

/// `set_limit(threshold)`: sets the session's similarity threshold and
/// returns it.  The server accepts thresholds between zero and one.
pub fn set_limit(threshold: Expr<Float>) -> (r: Expr<Float>)
    ensures
        r@ == "set_limit("@ + threshold@ + ")"@,
{
    let mut s = "set_limit(".to_owned();
    s.append(threshold.as_sql());
    s.append(")");
    Expr::from_string(s)
}

/// `array_to_string(array, delimiter)`: the array's elements joined by the
/// delimiter, as one text value.
pub fn array_to_string(array: Expr<TextArray>, delimiter: Expr<Text>) -> (r: Expr<Text>)
    ensures
        r@ == array_to_string_sql(array@, delimiter@),
{
    let mut s = "array_to_string(".to_owned();
    s.append(array.as_sql());
    s.append(", ");
    s.append(delimiter.as_sql());
    s.append(")");
    Expr::from_string(s)
}

} // verus!
