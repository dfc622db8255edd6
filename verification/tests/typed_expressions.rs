use pgtrgm::array_expression_methods::TrgmArrayExpressionMethods;
use pgtrgm::expr::Expr;
use pgtrgm::expr::Float;
use pgtrgm::expr::Nullable;
use pgtrgm::expr::Text;
use pgtrgm::expr::TextArray;
use pgtrgm::expression_methods::TrgmExpressionMethods;
use pgtrgm::functions::array_to_string;
use pgtrgm::functions::set_limit;
use pgtrgm::functions::show_limit;
use pgtrgm::functions::show_trgm;
use pgtrgm::functions::similarity;
use pgtrgm::functions::strict_word_similarity;
use pgtrgm::functions::word_similarity;
use pgtrgm::helper_functions::strict_word_distance_left;
use pgtrgm::helper_functions::strict_word_similar;
use pgtrgm::helper_functions::word_distance_left;
use pgtrgm::helper_functions::word_similar;

fn name() -> Expr<Text> {
    Expr::from_sql("name")
}

fn param() -> Expr<Text> {
    Expr::from_sql("$1")
}

fn tags() -> Expr<TextArray> {
    Expr::from_sql("tags")
}

#[test]
fn test_similar_to() {
    assert_eq!(name().similar_to(param()).as_sql(), "name % $1");
}

#[test]
fn test_word_similar_to() {
    assert_eq!(name().word_similar_to(param()).as_sql(), "name %> $1");
}

#[test]
fn test_strict_word_similar_to() {
    assert_eq!(
        name().strict_word_similar_to(param()).as_sql(),
        "name %>> $1"
    );
}

#[test]
fn test_distance() {
    assert_eq!(name().distance(param()).as_sql(), "name <-> $1");
}

#[test]
fn test_word_distance() {
    assert_eq!(name().word_distance(param()).as_sql(), "name <->> $1");
}

#[test]
fn test_strict_word_distance() {
    assert_eq!(name().strict_word_distance(param()).as_sql(), "name <->>> $1");
}

#[test]
fn test_nullable_text_supports_the_operators() {
    let nick: Expr<Nullable<Text>> = Expr::from_sql("nickname");
    assert_eq!(nick.similar_to(param()).as_sql(), "nickname % $1");
    let nick: Expr<Nullable<Text>> = Expr::from_sql("nickname");
    assert_eq!(nick.distance(param()).as_sql(), "nickname <-> $1");
}

#[test]
fn test_word_similar() {
    assert_eq!(word_similar(param(), name()).as_sql(), "$1 <% name");
}

#[test]
fn test_strict_word_similar() {
    assert_eq!(strict_word_similar(param(), name()).as_sql(), "$1 <<% name");
}

#[test]
fn test_word_distance_left() {
    assert_eq!(word_distance_left(param(), name()).as_sql(), "$1 <<-> name");
}

#[test]
fn test_strict_word_distance_left() {
    assert_eq!(
        strict_word_distance_left(param(), name()).as_sql(),
        "$1 <<<-> name"
    );
}

#[test]
fn test_similarity_function() {
    assert_eq!(similarity(name(), param()).as_sql(), "similarity(name, $1)");
}

#[test]
fn test_word_similarity_function() {
    assert_eq!(
        word_similarity(param(), name()).as_sql(),
        "word_similarity($1, name)"
    );
}

#[test]
fn test_strict_word_similarity_function() {
    assert_eq!(
        strict_word_similarity(param(), name()).as_sql(),
        "strict_word_similarity($1, name)"
    );
}

#[test]
fn test_show_trgm_function() {
    assert_eq!(show_trgm(name()).as_sql(), "show_trgm(name)");
}

#[test]
fn test_show_limit_function() {
    assert_eq!(show_limit().as_sql(), "show_limit()");
}

#[test]
fn test_set_limit_function() {
    let threshold: Expr<Float> = Expr::from_sql("0.3");
    assert_eq!(set_limit(threshold).as_sql(), "set_limit(0.3)");
}

#[test]
fn test_array_to_string_function() {
    let delim: Expr<Text> = Expr::from_sql("', '");
    assert_eq!(
        array_to_string(tags(), delim).as_sql(),
        "array_to_string(tags, ', ')"
    );
}

#[test]
fn test_similar_to_array() {
    assert_eq!(
        name().similar_to_array(tags()).as_sql(),
        "name % array_to_string(tags, ' ')"
    );
}

#[test]
fn test_distance_to_array() {
    assert_eq!(
        name().distance_to_array(tags()).as_sql(),
        "name <-> array_to_string(tags, ' ')"
    );
}

#[test]
fn test_array_comparison_matches_manual_composition() {
    let space: Expr<Text> = Expr::from_sql("' '");
    let manual = name().similar_to(array_to_string(tags(), space));
    let composed = name().similar_to_array(tags());
    assert_eq!(composed.as_sql(), manual.as_sql());

    let space: Expr<Text> = Expr::from_sql("' '");
    let manual = name().distance(array_to_string(tags(), space));
    let composed = name().distance_to_array(tags());
    assert_eq!(composed.as_sql(), manual.as_sql());
}

#[test]
fn test_into_sql_matches_as_sql() {
    let e = name().similar_to(param());
    assert_eq!(e.into_sql(), "name % $1");
}
