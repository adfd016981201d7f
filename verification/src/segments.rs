use vstd::prelude::*;
use vstd::string::StrSliceExecFns;
use vstd::string::StringExecFns;

use crate::catalog::Classifier;

verus! {

/// The delimiter that joins the hierarchical segments of a tag.
pub open spec fn delimiter() -> Seq<char> {
    seq![' ', ':', ':', ' ']
}

/// The delimiter occurs in `s` at position `i`.
pub open spec fn delim_at(s: Seq<char>, i: int) -> bool {
    &&& 0 <= i
    &&& i + delimiter().len() <= s.len()
    &&& s.subrange(i, i + delimiter().len() as int) == delimiter()
}

/// The position of the first delimiter occurrence in `s` at or after `from`;
/// `s.len()` when there is none.
pub open spec fn find_delim_from(s: Seq<char>, from: int) -> int
    decreases s.len() - from,
{
    if from + delimiter().len() > s.len() {
        s.len() as int
    } else if delim_at(s, from) {
        from
    } else {
        find_delim_from(s, from + 1)
    }
}

/// The segments of `s`: the delimiter-separated parts, in order, neither
/// trimmed nor deduplicated.  A string with no delimiter is one segment.
pub open spec fn split_spec(s: Seq<char>) -> Seq<Seq<char>>
    decreases s.len(),
{
    let j = find_delim_from(s, 0);
    if delim_at(s, j) {
        seq![s.subrange(0, j)] + split_spec(s.subrange(j + delimiter().len() as int, s.len() as int))
    } else {
        seq![s]
    }
}

/// The parts joined back together with the delimiter between them.
pub open spec fn join_spec(parts: Seq<Seq<char>>) -> Seq<char>
    decreases parts.len(),
{
    if parts.len() == 0 {
        Seq::empty()
    } else if parts.len() == 1 {
        parts[0]
    } else {
        parts[0] + delimiter() + join_spec(parts.drop_first())
    }
}

/// A split yields at least one segment.
pub proof fn lemma_split_spec_nonempty(s: Seq<char>)
    ensures
        split_spec(s).len() >= 1,
{
}

/// What `find_delim_from` returns: the first delimiter position at or after
/// `from`, or the length of `s` when no delimiter follows.
proof fn lemma_find_delim_from(s: Seq<char>, from: int)
    requires
        0 <= from <= s.len(),
    ensures
        ({
            let r = find_delim_from(s, from);
            &&& from <= r <= s.len()
            &&& (delim_at(s, r) || r == s.len())
            &&& forall|j: int| from <= j < r ==> !delim_at(s, j)
        }),
    decreases s.len() - from,
{
    if from + delimiter().len() > s.len() {
    } else if delim_at(s, from) {
    } else {
        lemma_find_delim_from(s, from + 1);
    }
}

/// A delimiter occurrence in a suffix is one in the whole string, shifted.
proof fn lemma_delim_at_shift(s: Seq<char>, start: int, j: int)
    requires
        0 <= start <= s.len(),
        0 <= j,
    ensures
        delim_at(s.subrange(start, s.len() as int), j) == delim_at(s, start + j),
{
    let suf = s.subrange(start, s.len() as int);
    if j + delimiter().len() <= suf.len() {
        assert(suf.subrange(j, j + delimiter().len() as int) =~= s.subrange(
            start + j,
            start + j + delimiter().len() as int,
        ));
    }
}

/// Joining the segments of `s` with the delimiter restores `s` exactly.
pub proof fn lemma_join_split(s: Seq<char>)
    ensures
        join_spec(split_spec(s)) == s,
    decreases s.len(),
{
    let j = find_delim_from(s, 0);
    lemma_find_delim_from(s, 0);
    if delim_at(s, j) {
        let pre = s.subrange(0, j);
        let rest = s.subrange(j + delimiter().len() as int, s.len() as int);
        lemma_join_split(rest);
        lemma_split_spec_nonempty(rest);
        assert((seq![pre] + split_spec(rest)).drop_first() =~= split_spec(rest));
        assert(pre + delimiter() + rest =~= s);
    }
}

/// No delimiter occurrence lies inside any segment produced by a split.
pub proof fn lemma_split_segments_delim_free(s: Seq<char>)
    ensures
        forall|k: int, i: int|
            0 <= k < split_spec(s).len() ==> !(#[trigger] delim_at(split_spec(s)[k], i)),
    decreases s.len(),
{
    let j = find_delim_from(s, 0);
    lemma_find_delim_from(s, 0);
    if delim_at(s, j) {
        let pre = s.subrange(0, j);
        let rest = s.subrange(j + delimiter().len() as int, s.len() as int);
        lemma_split_segments_delim_free(rest);
        assert forall|k: int, i: int|
            0 <= k < split_spec(s).len() implies !(delim_at(split_spec(s)[k], i)) by {
            if k == 0 {
                if delim_at(pre, i) {
                    assert(pre.subrange(i, i + delimiter().len() as int) =~= s.subrange(
                        i,
                        i + delimiter().len() as int,
                    ));
                    assert(delim_at(s, i));
                    assert(false);
                }
            } else {
                assert(split_spec(s)[k] == split_spec(rest)[k - 1]);
                assert(!(delim_at(split_spec(rest)[k - 1], i)));
            }
        }
    } else {
        assert forall|k: int, i: int|
            0 <= k < split_spec(s).len() implies !(delim_at(split_spec(s)[k], i)) by {
            if delim_at(s, i) {
                assert(false);
            }
        }
    }
}

/// The delimiter occurs in `s@` at position `i`.
fn delim_check(s: &str, i: usize, n: usize) -> (r: bool)
    requires
        n == s@.len(),
        i + delimiter().len() <= n,
    ensures
        r == delim_at(s@, i as int),
{
    let c0 = s.get_char(i);
    let c1 = s.get_char(i + 1);
    let c2 = s.get_char(i + 2);
    let c3 = s.get_char(i + 3);
    let r = c0 == ' ' && c1 == ':' && c2 == ':' && c3 == ' ';
    proof {
        let ghost sub = s@.subrange(i as int, i as int + delimiter().len() as int);
        assert(sub.len() == delimiter().len());
        assert(sub[0] == s@[i as int]);
        assert(sub[1] == s@[i as int + 1]);
        assert(sub[2] == s@[i as int + 2]);
        assert(sub[3] == s@[i as int + 3]);
        if r {
            assert(sub =~= delimiter());
        } else {
            if sub == delimiter() {
                assert(sub[0] == ' ' && sub[1] == ':' && sub[2] == ':' && sub[3] == ' ');
            }
        }
    }
    r
}

/// Split a string on the delimiter into its segments, in order.
pub fn split_tag(s: &str) -> (parts: Vec<String>)
    ensures
        parts.deep_view() == split_spec(s@),
{
    let n = s.unicode_len();
    let mut parts: Vec<String> = Vec::new();
    let mut start: usize = 0;
    let mut i: usize = 0;
    proof {
        assert(s@.subrange(0, n as int) =~= s@);
    }
    while n >= 4 && i <= n - 4
        invariant
            n == s@.len(),
            start <= i <= n,
            parts.deep_view() + split_spec(s@.subrange(start as int, n as int)) == split_spec(s@),
            forall|j: int| start <= j < i ==> !delim_at(s@, j),
        decreases n - i,
    {
        proof {
            assert(delimiter().len() == 4);
        }
        if delim_check(s, i, n) {
            let seg = s.substring_char(start, i);
            let ghost old_parts = parts.deep_view();
            parts.push(String::from_str(seg));
            proof {
                let ghost suf = s@.subrange(start as int, n as int);
                let ghost rel = i as int - start as int;
                assert forall|j: int| 0 <= j < rel implies !delim_at(suf, j) by {
                    lemma_delim_at_shift(s@, start as int, j);
                }
                lemma_delim_at_shift(s@, start as int, rel);
                assert(delim_at(suf, rel));
                lemma_find_delim_from(suf, 0);
                let ghost r = find_delim_from(suf, 0);
                assert(r == rel) by {
                    if r < rel {
                        assert(!delim_at(suf, r));
                    }
                    if r > rel {
                        assert(!delim_at(suf, rel));
                    }
                }
                assert(suf.subrange(0, rel) =~= s@.subrange(start as int, i as int));
                assert(suf.subrange(rel + delimiter().len() as int, suf.len() as int) =~= s@.subrange(
                    i as int + 4,
                    n as int,
                ));
                assert(split_spec(suf) == seq![seg@] + split_spec(
                    s@.subrange(i as int + 4, n as int),
                ));
                assert(parts.deep_view() =~= old_parts.push(seg@));
                assert(old_parts.push(seg@) + split_spec(s@.subrange(i as int + 4, n as int)) =~= old_parts
                    + (seq![seg@] + split_spec(s@.subrange(i as int + 4, n as int))));
            }
            start = i + 4;
            i = i + 4;
        } else {
            i = i + 1;
        }
    }
    let seg = s.substring_char(start, n);
    let ghost old_parts = parts.deep_view();
    parts.push(String::from_str(seg));
    proof {
        let ghost suf = s@.subrange(start as int, n as int);
        assert forall|j: int| 0 <= j implies !delim_at(suf, j) by {
            if j < i as int - start as int {
                lemma_delim_at_shift(s@, start as int, j);
            } else {
                assert(suf.len() == n as int - start as int);
                assert(j + delimiter().len() > suf.len() ==> !delim_at(suf, j));
                if j + delimiter().len() <= suf.len() {
                    assert(start + j + 4 <= n);
                    assert(i + 4 > n || n < 4);
                    assert(false);
                }
            }
        }
        lemma_find_delim_from(suf, 0);
        let ghost r = find_delim_from(suf, 0);
        assert(!delim_at(suf, r));
        assert(split_spec(suf) == seq![suf]);
        assert(seg@ == suf);
        assert(parts.deep_view() =~= old_parts.push(suf));
        assert(old_parts.push(suf) =~= old_parts + seq![suf]);
    }
    parts
}

impl Classifier {
    /// The hierarchical path segments of this classifier's tag, in order.
    pub fn split(&self) -> (parts: Vec<String>)
        ensures
            parts.deep_view() == split_spec(self.tag()),
    {
        split_tag(self.as_str())
    }

}

/// Segment composition: joining the segments of any classifier's tag with
/// the delimiter yields exactly its canonical tag.
pub proof fn lemma_segments_compose(c: Classifier)
    ensures
        join_spec(split_spec(c.tag())) == c.tag(),
{
    lemma_join_split(c.tag());
}

} // verus!
