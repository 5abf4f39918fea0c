//! Facts about sequences that several modules share.

use vstd::prelude::*;

verus! {

/// `s` with every repetition of an earlier item removed.
pub open spec fn without_repeats<T>(s: Seq<T>) -> Seq<T>
    decreases s.len(),
{
    if s.len() == 0 {
        s
    } else {
        let kept = without_repeats(s.drop_last());
        if kept.contains(s.last()) {
            kept
        } else {
            kept.push(s.last())
        }
    }
}

/// Where `x` first stands in `s`; meaningful where `s` holds `x`.
pub open spec fn first_index<T>(s: Seq<T>, x: T) -> int
    decreases s.len(),
{
    if s.len() == 0 {
        0
    } else if s.drop_last().contains(x) {
        first_index(s.drop_last(), x)
    } else {
        s.len() - 1
    }
}

/// `first_index` is the least index at which the item stands.
pub proof fn lemma_first_index<T>(s: Seq<T>, x: T)
    requires
        s.contains(x),
    ensures
        0 <= first_index(s, x) < s.len(),
        s[first_index(s, x)] == x,
        forall|j: int| 0 <= j < first_index(s, x) ==> s[j] != x,
    decreases s.len(),
{
    let d = s.drop_last();
    if d.contains(x) {
        lemma_first_index(d, x);
        assert forall|j: int| 0 <= j < first_index(s, x) implies s[j] != x by {
            assert(d[j] == s[j]);
        }
    } else {
        let i = choose|i: int| 0 <= i < s.len() && s[i] == x;
        if i < s.len() - 1 {
            assert(d[i] == x);
        }
        assert forall|j: int| 0 <= j < s.len() - 1 implies s[j] != x by {
            assert(d[j] == s[j]);
        }
    }
}

/// Removing repetitions neither adds an item nor loses one.
pub proof fn lemma_without_repeats_same_items<T>(s: Seq<T>)
    ensures
        forall|x: T| without_repeats(s).contains(x) <==> s.contains(x),
        without_repeats(s).len() <= s.len(),
    decreases s.len(),
{
    if s.len() > 0 {
        let d = s.drop_last();
        lemma_without_repeats_same_items(d);
        let kept = without_repeats(d);
        assert forall|x: T| without_repeats(s).contains(x) <==> s.contains(x) by {
            if s.contains(x) {
                let i = choose|i: int| 0 <= i < s.len() && s[i] == x;
                if i < s.len() - 1 {
                    assert(d[i] == x);
                    assert(d.contains(x));
                    assert(kept.contains(x));
                    let k = choose|k: int| 0 <= k < kept.len() && kept[k] == x;
                    assert(without_repeats(s)[k] == x);
                } else if !kept.contains(x) {
                    assert(without_repeats(s)[kept.len() as int] == x);
                }
            }
            if without_repeats(s).contains(x) {
                let k = choose|k: int| 0 <= k < without_repeats(s).len() && without_repeats(s)[k] == x;
                if k < kept.len() {
                    assert(kept[k] == x);
                    assert(d.contains(x));
                    let i = choose|i: int| 0 <= i < d.len() && d[i] == x;
                    assert(s[i] == x);
                } else {
                    assert(s[s.len() - 1] == x);
                }
            }
        }
    }
}

/// What is left after removing repetitions holds no item twice.
pub proof fn lemma_without_repeats_distinct<T>(s: Seq<T>)
    ensures
        without_repeats(s).no_duplicates(),
    decreases s.len(),
{
    if s.len() > 0 {
        lemma_without_repeats_distinct(s.drop_last());
    }
}

/// What is left after removing repetitions stands in the order in which the
/// items first came.
pub proof fn lemma_without_repeats_keeps_order<T>(s: Seq<T>, i: int, j: int)
    requires
        0 <= i < j < without_repeats(s).len(),
    ensures
        s.contains(without_repeats(s)[i]),
        s.contains(without_repeats(s)[j]),
        first_index(s, without_repeats(s)[i]) < first_index(s, without_repeats(s)[j]),
    decreases s.len(),
{
    let d = s.drop_last();
    let kept = without_repeats(d);
    let w = without_repeats(s);
    lemma_without_repeats_same_items(s);
    lemma_without_repeats_same_items(d);
    assert(w.contains(w[i]));
    assert(w.contains(w[j]));
    if j < kept.len() {
        assert(kept[i] == w[i] && kept[j] == w[j]);
        lemma_without_repeats_keeps_order(d, i, j);
    } else {
        assert(kept[i] == w[i]);
        assert(kept.contains(w[i]));
        assert(!kept.contains(w[j]));
        lemma_first_index(d, w[i]);
    }
}

/// A stretch of one of four sequences is the same stretch of the four put
/// together, moved by the lengths of those before it.
pub proof fn lemma_stretch_of_part<T>(
    first: Seq<T>,
    second: Seq<T>,
    third: Seq<T>,
    fourth: Seq<T>,
    i: int,
    j: int,
)
    requires
        0 <= i <= j,
    ensures
        j <= first.len() ==> (first + second + third + fourth).subrange(i, j) == first.subrange(
            i,
            j,
        ),
        j <= second.len() ==> (first + second + third + fourth).subrange(
            first.len() + i,
            first.len() + j,
        ) == second.subrange(i, j),
        j <= third.len() ==> (first + second + third + fourth).subrange(
            first.len() + second.len() + i,
            first.len() + second.len() + j,
        ) == third.subrange(i, j),
        j <= fourth.len() ==> (first + second + third + fourth).subrange(
            first.len() + second.len() + third.len() + i,
            first.len() + second.len() + third.len() + j,
        ) == fourth.subrange(i, j),
{
}

} // verus!
