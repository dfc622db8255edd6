//! The trigram operators as methods on text-typed expressions.

use vstd::prelude::*;

use crate::constants::DISTANCE;
use crate::constants::SIMILAR;
use crate::constants::STRICT_WORD_DISTANCE_RIGHT;
use crate::constants::STRICT_WORD_SIMILAR_RIGHT;
use crate::constants::WORD_DISTANCE_RIGHT;
use crate::constants::WORD_SIMILAR_RIGHT;
use crate::expr::Bool;
use crate::expr::Expr;
use crate::expr::Float;
use crate::expr::Text;
use crate::expr::TrgmTextType;

verus! {

/// Methods that place a trigram operator between a text-typed expression
/// and another text expression.  Every method renders
/// `<receiver> <operator> <argument>` and tags the result with the
/// operator's SQL result type.
pub trait TrgmExpressionMethods: Sized {
    /// The SQL text the receiver renders to.
    spec fn sql_spec(&self) -> Seq<char>;

    /// `self % other`: true when the trigram similarity passes the
    /// threshold.
    fn similar_to(self, other: Expr<Text>) -> (r: Expr<Bool>)
        ensures
            r@ == self.sql_spec() + SIMILAR@ + other@,
    ;

    /// `self %> other`: true when some extent of `self` is similar enough
    /// to `other`.
    fn word_similar_to(self, other: Expr<Text>) -> (r: Expr<Bool>)
        ensures
            r@ == self.sql_spec() + WORD_SIMILAR_RIGHT@ + other@,
    ;

    /// `self %>> other`: like `word_similar_to` but the extent must fall on
    /// word boundaries.
    fn strict_word_similar_to(self, other: Expr<Text>) -> (r: Expr<Bool>)
        ensures
            r@ == self.sql_spec() + STRICT_WORD_SIMILAR_RIGHT@ + other@,
    ;

    /// `self <-> other`: one minus the similarity; lower means more alike,
    /// which makes it the natural ordering key.
    fn distance(self, other: Expr<Text>) -> (r: Expr<Float>)
        ensures
            r@ == self.sql_spec() + DISTANCE@ + other@,
    ;

    /// `self <->> other`: one minus the word similarity.
    fn word_distance(self, other: Expr<Text>) -> (r: Expr<Float>)
        ensures
            r@ == self.sql_spec() + WORD_DISTANCE_RIGHT@ + other@,
    ;

    /// `self <->>> other`: one minus the strict word similarity.
    fn strict_word_distance(self, other: Expr<Text>) -> (r: Expr<Float>)
        ensures
            r@ == self.sql_spec() + STRICT_WORD_DISTANCE_RIGHT@ + other@,
    ;
}

impl<ST: TrgmTextType> TrgmExpressionMethods for Expr<ST> {
    open spec fn sql_spec(&self) -> Seq<char> {
        self@
    }

    fn similar_to(self, other: Expr<Text>) -> (r: Expr<Bool>) {
        let mut s = self.into_sql();
        s.append(SIMILAR);
        s.append(other.as_sql());
        Expr::from_string(s)
    }

    fn word_similar_to(self, other: Expr<Text>) -> (r: Expr<Bool>) {
        let mut s = self.into_sql();
        s.append(WORD_SIMILAR_RIGHT);
        s.append(other.as_sql());
        Expr::from_string(s)
    }

    fn strict_word_similar_to(self, other: Expr<Text>) -> (r: Expr<Bool>) {
        let mut s = self.into_sql();
        s.append(STRICT_WORD_SIMILAR_RIGHT);
        s.append(other.as_sql());
        Expr::from_string(s)
    }

    fn distance(self, other: Expr<Text>) -> (r: Expr<Float>) {
        let mut s = self.into_sql();
        s.append(DISTANCE);
        s.append(other.as_sql());
        Expr::from_string(s)
    }

    fn word_distance(self, other: Expr<Text>) -> (r: Expr<Float>) {
        let mut s = self.into_sql();
        s.append(WORD_DISTANCE_RIGHT);
        s.append(other.as_sql());
        Expr::from_string(s)
    }

    fn strict_word_distance(self, other: Expr<Text>) -> (r: Expr<Float>) {
        let mut s = self.into_sql();
        s.append(STRICT_WORD_DISTANCE_RIGHT);
        s.append(other.as_sql());
        Expr::from_string(s)
    }
}

} // verus!
