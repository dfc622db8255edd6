use pgtrgm::helpers::distance_order;
use pgtrgm::helpers::show_trgm_fn;
use pgtrgm::helpers::similarity_filter;
use pgtrgm::helpers::similarity_fn;
use pgtrgm::helpers::strict_word_distance_order;
use pgtrgm::helpers::strict_word_similarity_filter;
use pgtrgm::helpers::strict_word_similarity_fn;
use pgtrgm::helpers::word_distance_order;
use pgtrgm::helpers::word_similarity_filter;
use pgtrgm::helpers::word_similarity_fn;
use pgtrgm::index::gin_index_sql;
use pgtrgm::index::gist_index_sql;

#[test]
fn helpers_test_similarity_filter() {
    assert_eq!(similarity_filter("name", "$1"), "name % $1");
}

#[test]
fn test_word_similarity_filter() {
    assert_eq!(word_similarity_filter("name", "$1"), "name %> $1");
}

#[test]
fn test_strict_word_similarity_filter() {
    assert_eq!(strict_word_similarity_filter("name", "$1"), "name %>> $1");
}

#[test]
fn helpers_test_distance_order() {
    assert_eq!(distance_order("name", "$1"), "name <-> $1");
}

#[test]
fn test_word_distance_order() {
    assert_eq!(word_distance_order("name", "$1"), "name <->> $1");
}

#[test]
fn test_strict_word_distance_order() {
    assert_eq!(strict_word_distance_order("name", "$1"), "name <->>> $1");
}

#[test]
fn helpers_test_similarity_fn() {
    assert_eq!(similarity_fn("name", "$1"), "similarity(name, $1)");
}

#[test]
fn helpers_test_word_similarity_fn() {
    assert_eq!(word_similarity_fn("$1", "name"), "word_similarity($1, name)");
}

#[test]
fn test_strict_word_similarity_fn() {
    assert_eq!(
        strict_word_similarity_fn("$1", "name"),
        "strict_word_similarity($1, name)"
    );
}

#[test]
fn test_show_trgm_fn() {
    assert_eq!(show_trgm_fn("$1"), "show_trgm($1)");
}

#[test]
fn test_gin_index_sql() {
    assert_eq!(
        gin_index_sql("idx", "tbl", "col"),
        "CREATE INDEX idx ON tbl USING gin (col gin_trgm_ops)"
    );
}

#[test]
fn test_gist_index_sql() {
    assert_eq!(
        gist_index_sql("idx", "tbl", "col"),
        "CREATE INDEX idx ON tbl USING gist (col gist_trgm_ops)"
    );
}

#[test]
fn mod_test_similarity_filter() {
    assert_eq!(similarity_filter("name", "$1"), "name % $1");
}

#[test]
fn mod_test_distance_order() {
    assert_eq!(distance_order("name", "$1"), "name <-> $1");
}

#[test]
fn mod_test_similarity_fn() {
    assert_eq!(similarity_fn("name", "$1"), "similarity(name, $1)");
}

#[test]
fn mod_test_word_similarity_fn() {
    assert_eq!(word_similarity_fn("$1", "name"), "word_similarity($1, name)");
}

#[test]
fn test_empty_fragments_keep_only_the_token() {
    assert_eq!(similarity_filter("", ""), " % ");
    assert_eq!(distance_order("", ""), " <-> ");
}

#[test]
fn test_helpers_on_qualified_columns() {
    assert_eq!(
        similarity_filter("users.name", "$2"),
        "users.name % $2"
    );
    assert_eq!(
        strict_word_distance_order("articles.body", "$3"),
        "articles.body <->>> $3"
    );
    assert_eq!(similarity_fn("a.x", "b.y"), "similarity(a.x, b.y)");
}
