//! A small typed SQL expression tree.
//!
//! An [`Expr<ST>`] couples a piece of SQL text with the SQL type `ST` it
//! evaluates to, so that the trigram operators can only be applied to
//! text-typed expressions: a misuse fails to type-check instead of failing
//! on the server.  The type tags are empty marker structs; the view of an
//! expression is the SQL text it renders to.

use core::marker::PhantomData;

use vstd::prelude::*;

verus! {

/// Tag for the SQL `boolean` type, the result of the predicate operators.
pub struct Bool;

/// Tag for the SQL `real` type, the result of distances and similarities.
pub struct Float;

/// Tag for the SQL `text` type (`varchar` is the same type to the server).
pub struct Text;

/// Tag for the SQL `text[]` type.
pub struct TextArray;

/// Tag for the nullable variant of another SQL type.
pub struct Nullable<ST>(pub PhantomData<ST>);

/// Marker for the SQL types whose expressions the trigram operators accept:
/// `text` and its nullable variant.
pub trait TrgmTextType {}

impl TrgmTextType for Text {

}

impl TrgmTextType for Nullable<Text> {

}

/// A SQL expression tagged with the SQL type it evaluates to.
pub struct Expr<ST> {
    pub(crate) sql: String,
    pub(crate) sql_type: PhantomData<ST>,
}

impl<ST> View for Expr<ST> {
    type V = Seq<char>;

    closed spec fn view(&self) -> Seq<char> {
        self.sql@
    }
}

impl<ST> Expr<ST> {
    /// Wraps SQL text as an expression of type `ST`.  The text is taken
    /// verbatim, with no quoting or escaping: the caller vouches both that
    /// it is well-formed SQL and that it has the claimed type.
    pub fn from_sql(sql: &str) -> (r: Expr<ST>)
        ensures
            r@ == sql@,
    {
        Expr { sql: sql.to_owned(), sql_type: PhantomData }
    }

    /// Wraps an owned SQL string as an expression of type `ST`.
    pub(crate) fn from_string(sql: String) -> (r: Expr<ST>)
        ensures
            r@ == sql@,
    {
        Expr { sql, sql_type: PhantomData }
    }

    /// The SQL text this expression renders to.
    pub fn as_sql(&self) -> (r: &str)
        ensures
            r@ == self@,
    {
        self.sql.as_str()
    }

    /// Consumes the expression and hands back the SQL text it renders to.
    pub fn into_sql(self) -> (r: String)
        ensures
            r@ == self@,
    {
        self.sql
    }
}

} // verus!
