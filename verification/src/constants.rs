//! The SQL operator tokens registered by the `pg_trgm` extension.
//!
//! Each constant holds one operator token with a single space on either
//! side, ready to be placed between two SQL operands.  The tokens must match
//! the operator names that `pg_trgm` registers byte for byte: a mismatch
//! would surface only as an SQL error when the server parses the query.

use vstd::prelude::*;

verus! {

/// ` % `: true when the trigram similarity of the operands passes the
/// similarity threshold.
pub const SIMILAR: &'static str = " % ";

/// ` <% `: true when the left operand's trigrams match a continuous extent
/// of the right operand well enough (word similarity).
pub const WORD_SIMILAR_LEFT: &'static str = " <% ";

/// ` %> `: commutator of ` <% `, with the operands swapped.
pub const WORD_SIMILAR_RIGHT: &'static str = " %> ";

/// ` <<% `: like ` <% ` but the extent's boundaries must fall on word
/// boundaries (strict word similarity).
pub const STRICT_WORD_SIMILAR_LEFT: &'static str = " <<% ";

/// ` %>> `: commutator of ` <<% `, with the operands swapped.
pub const STRICT_WORD_SIMILAR_RIGHT: &'static str = " %>> ";

/// ` <-> `: the trigram distance, one minus the similarity.
pub const DISTANCE: &'static str = " <-> ";

/// ` <<-> `: one minus the word similarity.
pub const WORD_DISTANCE_LEFT: &'static str = " <<-> ";

/// ` <->> `: commutator of ` <<-> `, with the operands swapped.
pub const WORD_DISTANCE_RIGHT: &'static str = " <->> ";

/// ` <<<-> `: one minus the strict word similarity.
pub const STRICT_WORD_DISTANCE_LEFT: &'static str = " <<<-> ";

/// ` <->>> `: commutator of ` <<<-> `, with the operands swapped.
pub const STRICT_WORD_DISTANCE_RIGHT: &'static str = " <->>> ";

/// The ten space-padded operator tokens, in one fixed order.
pub open spec fn operator_tokens() -> Seq<Seq<char>> {
    seq![
        SIMILAR@,
        WORD_SIMILAR_LEFT@,
        WORD_SIMILAR_RIGHT@,
        STRICT_WORD_SIMILAR_LEFT@,
        STRICT_WORD_SIMILAR_RIGHT@,
        DISTANCE@,
        WORD_DISTANCE_LEFT@,
        WORD_DISTANCE_RIGHT@,
        STRICT_WORD_DISTANCE_LEFT@,
        STRICT_WORD_DISTANCE_RIGHT@,
    ]
}

/// The bare operator names that `pg_trgm` registers, in the same order as
/// `operator_tokens`.
pub open spec fn operator_names() -> Seq<Seq<char>> {
    seq![
        "%"@,
        "<%"@,
        "%>"@,
        "<<%"@,
        "%>>"@,
        "<->"@,
        "<<->"@,
        "<->>"@,
        "<<<->"@,
        "<->>>"@,
    ]
}

/// A word wrapped in exactly one leading and one trailing space, with no
/// space anywhere in between.  Every operator token has this shape.
pub open spec fn space_padded(s: Seq<char>) -> bool {
    &&& s.len() >= 3
    &&& s[0] == ' '
    &&& s[s.len() - 1] == ' '
    &&& forall|k: int| 1 <= k < s.len() - 1 ==> s[k] != ' '
}

/// Token `a` neither equals token `b` nor hides inside it as a prefix or a
/// suffix.
pub open spec fn tokens_independent(a: Seq<char>, b: Seq<char>) -> bool {
    &&& a != b
    &&& !a.is_prefix_of(b)
    &&& !a.is_suffix_of(b)
}

/// Decodes a token back to its position in `operator_tokens`; a proof
/// device that makes the tokens' pairwise distinctness one congruence step.
spec fn token_index(s: Seq<char>) -> int {
    if s == SIMILAR@ {
        0
    } else if s == WORD_SIMILAR_LEFT@ {
        1
    } else if s == WORD_SIMILAR_RIGHT@ {
        2
    } else if s == STRICT_WORD_SIMILAR_LEFT@ {
        3
    } else if s == STRICT_WORD_SIMILAR_RIGHT@ {
        4
    } else if s == DISTANCE@ {
        5
    } else if s == WORD_DISTANCE_LEFT@ {
        6
    } else if s == WORD_DISTANCE_RIGHT@ {
        7
    } else if s == STRICT_WORD_DISTANCE_LEFT@ {
        8
    } else if s == STRICT_WORD_DISTANCE_RIGHT@ {
        9
    } else {
        -1
    }
}

/// Pins down the shape of the token at position `i`: it is the bare
/// operator name at the same position wrapped in single spaces, and it
/// decodes back to `i`.
proof fn lemma_token_facts(i: int)
    requires
        0 <= i < operator_tokens().len(),
    ensures
        operator_tokens()[i] == " "@ + operator_names()[i] + " "@,
        operator_names()[i] == operator_tokens()[i].subrange(
            1,
            operator_tokens()[i].len() - 1,
        ),
        operator_names()[i].len() >= 1,
        forall|k: int| 0 <= k < operator_names()[i].len() ==> operator_names()[i][k] != ' ',
        space_padded(operator_tokens()[i]),
        token_index(operator_tokens()[i]) == i,
{
    reveal_strlit(" ");
    reveal_strlit(" % ");
    reveal_strlit(" <% ");
    reveal_strlit(" %> ");
    reveal_strlit(" <<% ");
    reveal_strlit(" %>> ");
    reveal_strlit(" <-> ");
    reveal_strlit(" <<-> ");
    reveal_strlit(" <->> ");
    reveal_strlit(" <<<-> ");
    reveal_strlit(" <->>> ");
    reveal_strlit("%");
    reveal_strlit("<%");
    reveal_strlit("%>");
    reveal_strlit("<<%");
    reveal_strlit("%>>");
    reveal_strlit("<->");
    reveal_strlit("<<->");
    reveal_strlit("<->>");
    reveal_strlit("<<<->");
    reveal_strlit("<->>>");
    // Length and the first two inner characters tell all ten tokens apart.
    assert(SIMILAR@.len() == 3 && SIMILAR@[1] == '%');
    assert(WORD_SIMILAR_LEFT@.len() == 4 && WORD_SIMILAR_LEFT@[1] == '<');
    assert(WORD_SIMILAR_RIGHT@.len() == 4 && WORD_SIMILAR_RIGHT@[1] == '%');
    assert(STRICT_WORD_SIMILAR_LEFT@.len() == 5 && STRICT_WORD_SIMILAR_LEFT@[1] == '<'
        && STRICT_WORD_SIMILAR_LEFT@[2] == '<');
    assert(STRICT_WORD_SIMILAR_RIGHT@.len() == 5 && STRICT_WORD_SIMILAR_RIGHT@[1] == '%');
    assert(DISTANCE@.len() == 5 && DISTANCE@[1] == '<' && DISTANCE@[2] == '-');
    assert(WORD_DISTANCE_LEFT@.len() == 6 && WORD_DISTANCE_LEFT@[1] == '<'
        && WORD_DISTANCE_LEFT@[2] == '<');
    assert(WORD_DISTANCE_RIGHT@.len() == 6 && WORD_DISTANCE_RIGHT@[1] == '<'
        && WORD_DISTANCE_RIGHT@[2] == '-');
    assert(STRICT_WORD_DISTANCE_LEFT@.len() == 7 && STRICT_WORD_DISTANCE_LEFT@[1] == '<'
        && STRICT_WORD_DISTANCE_LEFT@[2] == '<');
    assert(STRICT_WORD_DISTANCE_RIGHT@.len() == 7 && STRICT_WORD_DISTANCE_RIGHT@[1] == '<'
        && STRICT_WORD_DISTANCE_RIGHT@[2] == '-');
    assert(operator_tokens()[0] =~= " "@ + operator_names()[0] + " "@);
    assert(operator_names()[0] =~= operator_tokens()[0].subrange(
        1,
        operator_tokens()[0].len() - 1,
    ));
    assert(space_padded(operator_tokens()[0]));
    assert(token_index(operator_tokens()[0]) == 0);
    assert(operator_tokens()[1] =~= " "@ + operator_names()[1] + " "@);
    assert(operator_names()[1] =~= operator_tokens()[1].subrange(
        1,
        operator_tokens()[1].len() - 1,
    ));
    assert(space_padded(operator_tokens()[1]));
    assert(token_index(operator_tokens()[1]) == 1);
    assert(operator_tokens()[2] =~= " "@ + operator_names()[2] + " "@);
    assert(operator_names()[2] =~= operator_tokens()[2].subrange(
        1,
        operator_tokens()[2].len() - 1,
    ));
    assert(space_padded(operator_tokens()[2]));
    assert(token_index(operator_tokens()[2]) == 2);
    assert(operator_tokens()[3] =~= " "@ + operator_names()[3] + " "@);
    assert(operator_names()[3] =~= operator_tokens()[3].subrange(
        1,
        operator_tokens()[3].len() - 1,
    ));
    assert(space_padded(operator_tokens()[3]));
    assert(token_index(operator_tokens()[3]) == 3);
    assert(operator_tokens()[4] =~= " "@ + operator_names()[4] + " "@);
    assert(operator_names()[4] =~= operator_tokens()[4].subrange(
        1,
        operator_tokens()[4].len() - 1,
    ));
    assert(space_padded(operator_tokens()[4]));
    assert(token_index(operator_tokens()[4]) == 4);
    assert(operator_tokens()[5] =~= " "@ + operator_names()[5] + " "@);
    assert(operator_names()[5] =~= operator_tokens()[5].subrange(
        1,
        operator_tokens()[5].len() - 1,
    ));
    assert(space_padded(operator_tokens()[5]));
    assert(token_index(operator_tokens()[5]) == 5);
    assert(operator_tokens()[6] =~= " "@ + operator_names()[6] + " "@);
    assert(operator_names()[6] =~= operator_tokens()[6].subrange(
        1,
        operator_tokens()[6].len() - 1,
    ));
    assert(space_padded(operator_tokens()[6]));
    assert(token_index(operator_tokens()[6]) == 6);
    assert(operator_tokens()[7] =~= " "@ + operator_names()[7] + " "@);
    assert(operator_names()[7] =~= operator_tokens()[7].subrange(
        1,
        operator_tokens()[7].len() - 1,
    ));
    assert(space_padded(operator_tokens()[7]));
    assert(token_index(operator_tokens()[7]) == 7);
    assert(operator_tokens()[8] =~= " "@ + operator_names()[8] + " "@);
    assert(operator_names()[8] =~= operator_tokens()[8].subrange(
        1,
        operator_tokens()[8].len() - 1,
    ));
    assert(space_padded(operator_tokens()[8]));
    assert(token_index(operator_tokens()[8]) == 8);
    assert(operator_tokens()[9] =~= " "@ + operator_names()[9] + " "@);
    assert(operator_names()[9] =~= operator_tokens()[9].subrange(
        1,
        operator_tokens()[9].len() - 1,
    ));
    assert(space_padded(operator_tokens()[9]));
    assert(token_index(operator_tokens()[9]) == 9);
}

/// Law: two distinct space-padded words can never collide as a prefix or a
/// suffix of one another: the shorter word would have to place one of its
/// surrounding spaces inside the other word's space-free interior.
pub proof fn lemma_space_padded_no_affix(a: Seq<char>, b: Seq<char>)
    requires
        space_padded(a),
        space_padded(b),
        a != b,
    ensures
        !a.is_prefix_of(b),
        !a.is_suffix_of(b),
{
    if a.len() == b.len() {
        if a.is_prefix_of(b) {
            assert(b.subrange(0, a.len() as int) =~= b);
            assert(false);
        }
        if a.is_suffix_of(b) {
            assert(b.subrange((b.len() - a.len()) as int, b.len() as int) =~= b);
            assert(false);
        }
    } else if a.len() < b.len() {
        if a.is_prefix_of(b) {
            // The trailing space of `a` would sit strictly inside `b`.
            assert(a[a.len() - 1] == b.subrange(0, a.len() as int)[a.len() - 1]);
            assert(b[a.len() - 1] == ' ');
            assert(false);
        }
        if a.is_suffix_of(b) {
            // The leading space of `a` would sit strictly inside `b`.
            let start: int = (b.len() - a.len()) as int;
            assert(a[0] == b.subrange(start, b.len() as int)[0]);
            assert(b[start] == ' ');
            assert(false);
        }
    } else {
        // `a` is longer than `b`, so it fits in `b` neither way.
    }
}

/// Law: the ten operator tokens are pairwise distinct, and none hides as a
/// prefix or suffix of another: the spaces baked into the constants keep
/// concatenated fragments unambiguous.
pub proof fn lemma_tokens_pairwise_independent()
    ensures
        operator_tokens().len() == 10,
        forall|i: int, j: int|
            0 <= i < operator_tokens().len() && 0 <= j < operator_tokens().len() && i != j
                ==> tokens_independent(operator_tokens()[i], operator_tokens()[j]),
{
    assert forall|i: int, j: int|
        0 <= i < operator_tokens().len() && 0 <= j < operator_tokens().len() && i
            != j implies tokens_independent(operator_tokens()[i], operator_tokens()[j]) by {
        lemma_token_facts(i);
        lemma_token_facts(j);
        assert(operator_tokens()[i] != operator_tokens()[j]);
        lemma_space_padded_no_affix(operator_tokens()[i], operator_tokens()[j]);
    }
}

/// Law: stripping the surrounding spaces from each operator constant
/// recovers exactly the operator name that `pg_trgm` registers, and that
/// bare name holds no space of its own.
pub proof fn lemma_tokens_round_trip()
    ensures
        operator_tokens().len() == operator_names().len(),
        forall|i: int|
            0 <= i < operator_tokens().len() ==> operator_tokens()[i] == " "@
                + operator_names()[i] + " "@,
        forall|i: int|
            0 <= i < operator_tokens().len() ==> operator_names()[i]
                == operator_tokens()[i].subrange(1, operator_tokens()[i].len() - 1),
        forall|i: int| 0 <= i < operator_names().len() ==> operator_names()[i].len() >= 1,
        forall|i: int, k: int|
            0 <= i < operator_names().len() && 0 <= k < operator_names()[i].len()
                ==> operator_names()[i][k] != ' ',
{
    assert forall|i: int| 0 <= i < operator_tokens().len() implies operator_tokens()[i] == " "@
        + operator_names()[i] + " "@ by {
        lemma_token_facts(i);
    }
    assert forall|i: int| 0 <= i < operator_tokens().len() implies operator_names()[i]
        == operator_tokens()[i].subrange(1, operator_tokens()[i].len() - 1) by {
        lemma_token_facts(i);
    }
    assert forall|i: int| 0 <= i < operator_names().len() implies operator_names()[i].len()
        >= 1 by {
        lemma_token_facts(i);
    }
    assert forall|i: int, k: int|
        0 <= i < operator_names().len() && 0 <= k
            < operator_names()[i].len() implies operator_names()[i][k] != ' ' by {
        lemma_token_facts(i);
    }
}

} // verus!
