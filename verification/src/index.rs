//! DDL builders for trigram indexes.
//!
//! A GIN index is faster to search; a GiST index is faster to build and
//! update and also serves the distance operator for nearest-neighbour
//! ordering.  As everywhere in this library, the index, table and column
//! names are substituted verbatim, with no quoting or escaping.

use vstd::prelude::*;

verus! {

/// Builds the statement that creates a GIN trigram index.
pub fn gin_index_sql(index_name: &str, table: &str, column: &str) -> (r: String)
    ensures
        r@ == "CREATE INDEX "@ + index_name@ + " ON "@ + table@ + " USING gin ("@ + column@
            + " gin_trgm_ops)"@,
{
    let mut s = "CREATE INDEX ".to_owned();
    s.append(index_name);
    s.append(" ON ");
    s.append(table);
    s.append(" USING gin (");
    s.append(column);
    s.append(" gin_trgm_ops)");
    s
}

/// Builds the statement that creates a GiST trigram index.
pub fn gist_index_sql(index_name: &str, table: &str, column: &str) -> (r: String)
    ensures
        r@ == "CREATE INDEX "@ + index_name@ + " ON "@ + table@ + " USING gist ("@ + column@
            + " gist_trgm_ops)"@,
{
    let mut s = "CREATE INDEX ".to_owned();
    s.append(index_name);
    s.append(" ON ");
    s.append(table);
    s.append(" USING gist (");
    s.append(column);
    s.append(" gist_trgm_ops)");
    s
}

} // verus!
