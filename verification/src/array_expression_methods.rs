//! Trigram comparisons between a text expression and an array of texts.
//!
//! The server has no trigram operator on arrays, so the array is first
//! joined into one text value with `array_to_string(array, ' ')` and the
//! plain operator is applied to the result.  This is the one composed
//! rendering in the library; the law `lemma_array_comparison_composition`
//! pins it to the two steps it is made of.

use vstd::prelude::*;

use crate::constants::DISTANCE;
use crate::constants::SIMILAR;
use crate::expr::Bool;
use crate::expr::Expr;
use crate::expr::Float;
use crate::expr::Text;
use crate::expr::TextArray;
use crate::expression_methods::TrgmExpressionMethods;
use crate::functions::array_to_string;
use crate::functions::array_to_string_sql;

verus! {

/// The delimiter the array comparisons join with: a SQL text literal
/// holding a single space.
pub open spec fn space_literal_sql() -> Seq<char> {
    "' '"@
}

/// The SQL text of `expr % array_to_string(array, ' ')`.
pub open spec fn similar_to_array_sql(expr: Seq<char>, array: Seq<char>) -> Seq<char> {
    expr + SIMILAR@ + array_to_string_sql(array, space_literal_sql())
}

/// The SQL text of `expr <-> array_to_string(array, ' ')`.
pub open spec fn distance_to_array_sql(expr: Seq<char>, array: Seq<char>) -> Seq<char> {
    expr + DISTANCE@ + array_to_string_sql(array, space_literal_sql())
}

/// Methods that compare a text-typed expression against an array of texts,
/// joined with single spaces.
pub trait TrgmArrayExpressionMethods: TrgmExpressionMethods {
    /// True when `self` is similar to the array's elements joined with
    /// spaces.
    fn similar_to_array(self, other: Expr<TextArray>) -> (r: Expr<Bool>)
        ensures
            r@ == similar_to_array_sql(self.sql_spec(), other@),
    ;

    /// The trigram distance between `self` and the array's elements joined
    /// with spaces.
    fn distance_to_array(self, other: Expr<TextArray>) -> (r: Expr<Float>)
        ensures
            r@ == distance_to_array_sql(self.sql_spec(), other@),
    ;
}

impl<E: TrgmExpressionMethods> TrgmArrayExpressionMethods for E {
    fn similar_to_array(self, other: Expr<TextArray>) -> (r: Expr<Bool>) {
        self.similar_to(array_to_string(other, Expr::from_sql("' '")))
    }

    fn distance_to_array(self, other: Expr<TextArray>) -> (r: Expr<Float>) {
        self.distance(array_to_string(other, Expr::from_sql("' '")))
    }
}

/// Law: an array comparison renders exactly what the two-step rendering
/// renders, namely joining the array with `array_to_string(array, ' ')`
/// first and then applying the plain similarity or distance operator to the
/// joined text.
pub proof fn lemma_array_comparison_composition(expr: Seq<char>, array: Seq<char>)
    ensures
        similar_to_array_sql(expr, array) == expr + SIMILAR@ + array_to_string_sql(
            array,
            space_literal_sql(),
        ),
        distance_to_array_sql(expr, array) == expr + DISTANCE@ + array_to_string_sql(
            array,
            space_literal_sql(),
        ),
{
}

} // verus!
