use vstd::prelude::*;

use crate::catalog::CLASSIFIER_COUNT;
use crate::catalog::Classifier;
use crate::lexord::lex_lt;
use crate::lexord::lemma_lex_lt_ne;
use crate::lexord::lemma_lex_lt_trans;
use crate::rank::classifier_of_rank;
use crate::rank::lemma_rank_bounds;
use crate::rank::lemma_rank_inverse;
use crate::tag_order_facts_a::lemma_adjacent_lex_a;
use crate::tag_order_facts_b::lemma_adjacent_lex_b;
use crate::tag_order_facts_c::lemma_adjacent_lex_c;
use crate::tag_order_facts_d::lemma_adjacent_lex_d;
use crate::tag_order_facts_e::lemma_adjacent_lex_e;
use crate::tag_order_facts_f::lemma_adjacent_lex_f;
use crate::tag_order_facts_g::lemma_adjacent_lex_g;

verus! {

/// Tags of classifiers at adjacent ranks are in strict lexicographic order.
proof fn lemma_adjacent_lex(i: int)
    requires
        0 <= i < CLASSIFIER_COUNT as int - 1,
    ensures
        lex_lt(classifier_of_rank(i).tag(), classifier_of_rank(i + 1).tag()),
{
    if i < 140 {
        lemma_adjacent_lex_a(i);
    } else if i < 280 {
        lemma_adjacent_lex_b(i);
    } else if i < 420 {
        lemma_adjacent_lex_c(i);
    } else if i < 560 {
        lemma_adjacent_lex_d(i);
    } else if i < 700 {
        lemma_adjacent_lex_e(i);
    } else if i < 840 {
        lemma_adjacent_lex_f(i);
    } else if i < 864 {
        lemma_adjacent_lex_g(i);
    }
}

/// Tags are in strict lexicographic order along the ranks.
proof fn lemma_rank_lt_lex(i: int, j: int)
    requires
        0 <= i < j < CLASSIFIER_COUNT as int,
    ensures
        lex_lt(classifier_of_rank(i).tag(), classifier_of_rank(j).tag()),
    decreases j - i,
{
    if j == i + 1 {
        lemma_adjacent_lex(i);
    } else {
        lemma_rank_lt_lex(i, j - 1);
        lemma_adjacent_lex(j - 1);
        lemma_lex_lt_trans(
            classifier_of_rank(i).tag(),
            classifier_of_rank(j - 1).tag(),
            classifier_of_rank(j).tag(),
        );
    }
}

/// No two distinct classifiers share a tag: rendering is injective.
pub proof fn lemma_tag_injective(c1: Classifier, c2: Classifier)
    requires
        c1 != c2,
    ensures
        c1.tag() != c2.tag(),
{
    lemma_rank_bounds();
    lemma_rank_inverse();
    assert(classifier_of_rank(c1.rank()) == c1);
    assert(classifier_of_rank(c2.rank()) == c2);
    if c1.rank() < c2.rank() {
        lemma_rank_lt_lex(c1.rank(), c2.rank());
        lemma_lex_lt_ne(c1.tag(), c2.tag());
    } else {
        lemma_rank_lt_lex(c2.rank(), c1.rank());
        lemma_lex_lt_ne(c2.tag(), c1.tag());
    }
}

} // verus!
