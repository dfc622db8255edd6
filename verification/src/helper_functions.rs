//! The left-hand trigram operators as free functions.
//!
//! The method form on expressions covers the right-hand operators (`%>`,
//! `%>>`, `<->>`, `<->>>`); their commutators put the searched-for text on
//! the left, which reads better as a call with both operands spelled out.

use vstd::prelude::*;

use crate::constants::STRICT_WORD_DISTANCE_LEFT;
use crate::constants::STRICT_WORD_SIMILAR_LEFT;
use crate::constants::WORD_DISTANCE_LEFT;
use crate::constants::WORD_SIMILAR_LEFT;
use crate::expr::Bool;
use crate::expr::Expr;
use crate::expr::Float;
use crate::expr::Text;

verus! {

/// `left <% right`: true when some extent of `right` is similar enough to
/// `left`.
pub fn word_similar(left: Expr<Text>, right: Expr<Text>) -> (r: Expr<Bool>)
    ensures
        r@ == left@ + WORD_SIMILAR_LEFT@ + right@,
{
    let mut s = left.into_sql();
    s.append(WORD_SIMILAR_LEFT);
    s.append(right.as_sql());
    Expr::from_string(s)
}

/// `left <<% right`: like `word_similar` but the extent must fall on word
/// boundaries.
pub fn strict_word_similar(left: Expr<Text>, right: Expr<Text>) -> (r: Expr<Bool>)
    ensures
        r@ == left@ + STRICT_WORD_SIMILAR_LEFT@ + right@,
{
    let mut s = left.into_sql();
    s.append(STRICT_WORD_SIMILAR_LEFT);
    s.append(right.as_sql());
    Expr::from_string(s)
}

/// `left <<-> right`: one minus the word similarity, with the searched-for
/// text on the left.
pub fn word_distance_left(left: Expr<Text>, right: Expr<Text>) -> (r: Expr<Float>)
    ensures
        r@ == left@ + WORD_DISTANCE_LEFT@ + right@,
{
    let mut s = left.into_sql();
    s.append(WORD_DISTANCE_LEFT);
    s.append(right.as_sql());
    Expr::from_string(s)
}

/// `left <<<-> right`: one minus the strict word similarity, with the
/// searched-for text on the left.
pub fn strict_word_distance_left(left: Expr<Text>, right: Expr<Text>) -> (r: Expr<Float>)
    ensures
        r@ == left@ + STRICT_WORD_DISTANCE_LEFT@ + right@,
{
    let mut s = left.into_sql();
    s.append(STRICT_WORD_DISTANCE_LEFT);
    s.append(right.as_sql());
    Expr::from_string(s)
}

} // verus!
