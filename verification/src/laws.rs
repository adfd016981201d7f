use vstd::prelude::*;

use crate::catalog::Classifier;
use crate::catalog::PYPA_VERSION;
use crate::tag_order::lemma_tag_injective;

verus! {

/// Parsing as a mathematical map: the unique classifier whose canonical tag
/// equals `s`, or `None` when the catalog holds no such tag.
pub open spec fn parse_spec(s: Seq<char>) -> Option<Classifier> {
    if exists|k: Classifier| k.tag() == s {
        Some(choose|k: Classifier| k.tag() == s)
    } else {
        None
    }
}

/// Stability under re-parse: a string that parses renders back to itself,
/// exactly, including case and punctuation.
pub proof fn lemma_parse_exact(s: Seq<char>, c: Classifier)
    requires
        parse_spec(s) == Some(c),
    ensures
        c.tag() == s,
{
}

/// Round trip: parsing the canonical tag of any classifier gives back that
/// classifier.
pub proof fn lemma_parse_render_round_trip(c: Classifier)
    ensures
        parse_spec(c.tag()) == Some(c),
{
    assert(c.tag() == c.tag());
    let d = choose|k: Classifier| k.tag() == c.tag();
    if d != c {
        lemma_tag_injective(d, c);
    }
}

/// The catalog's version label is a fixed, nonempty string.
pub proof fn lemma_version_label_nonempty()
    ensures
        PYPA_VERSION@.len() > 0,
{
    reveal_strlit("2024.10.16");
}

} // verus!
