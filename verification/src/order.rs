//! The order of texts and of pairs of texts, and sorting by it.
use vstd::prelude::*;

use crate::effects::metrics;
use crate::text::chars_of;

verus! {

/// Whether `a` does not come after `b`: character by character, and a text before its
/// continuations.
pub open spec fn text_le(a: Seq<char>, b: Seq<char>) -> bool
    decreases a.len(),
{
    if a.len() == 0 {
        true
    } else if b.len() == 0 {
        false
    } else if a[0] == b[0] {
        text_le(a.drop_first(), b.drop_first())
    } else {
        a[0] < b[0]
    }
}

/// Whether the pair `a` does not come after the pair `b`: by the first text, then by the second.
pub open spec fn pair_le(a: (Seq<char>, Seq<char>), b: (Seq<char>, Seq<char>)) -> bool {
    if a.0 == b.0 {
        text_le(a.1, b.1)
    } else {
        text_le(a.0, b.0)
    }
}

/// Pairs in their order.
pub open spec fn sorted_pairs(pairs: Seq<(Seq<char>, Seq<char>)>) -> Seq<(Seq<char>, Seq<char>)> {
    pairs.sort_by(|a: (Seq<char>, Seq<char>), b: (Seq<char>, Seq<char>)| pair_le(a, b))
}

proof fn lemma_text_reflexive(a: Seq<char>)
    ensures
        text_le(a, a),
    decreases a.len(),
{
    if a.len() > 0 {
        lemma_text_reflexive(a.drop_first());
    }
}

proof fn lemma_text_antisymmetric(a: Seq<char>, b: Seq<char>)
    requires
        text_le(a, b),
        text_le(b, a),
    ensures
        a == b,
    decreases a.len(),
{
    if a.len() > 0 && b.len() > 0 {
        lemma_text_antisymmetric(a.drop_first(), b.drop_first());
        assert(a =~= seq![a[0]] + a.drop_first());
        assert(b =~= seq![b[0]] + b.drop_first());
    } else {
        assert(a =~= b);
    }
}

proof fn lemma_text_transitive(a: Seq<char>, b: Seq<char>, c: Seq<char>)
    requires
        text_le(a, b),
        text_le(b, c),
    ensures
        text_le(a, c),
    decreases a.len(),
{
    if a.len() > 0 && b.len() > 0 && c.len() > 0 {
        if a[0] == b[0] && b[0] == c[0] {
            lemma_text_transitive(a.drop_first(), b.drop_first(), c.drop_first());
        }
    }
}

proof fn lemma_text_total(a: Seq<char>, b: Seq<char>)
    ensures
        text_le(a, b) || text_le(b, a),
    decreases a.len(),
{
    if a.len() > 0 && b.len() > 0 && a[0] == b[0] {
        lemma_text_total(a.drop_first(), b.drop_first());
    }
}

/// The order of pairs is total.
pub proof fn pairs_are_ordered()
    ensures
        vstd::relations::total_ordering(
            |a: (Seq<char>, Seq<char>), b: (Seq<char>, Seq<char>)| pair_le(a, b),
        ),
{
    let le = |a: (Seq<char>, Seq<char>), b: (Seq<char>, Seq<char>)| pair_le(a, b);
    assert forall|x: (Seq<char>, Seq<char>)| #[trigger] le(x, x) by {
        lemma_text_reflexive(x.1);
    }
    assert forall|x: (Seq<char>, Seq<char>), y: (Seq<char>, Seq<char>)| #[trigger]
        le(x, y) && #[trigger] le(y, x) implies x == y by {
        if x.0 == y.0 {
            lemma_text_antisymmetric(x.1, y.1);
        } else {
            lemma_text_antisymmetric(x.0, y.0);
        }
    }
    assert forall|
        x: (Seq<char>, Seq<char>),
        y: (Seq<char>, Seq<char>),
        z: (Seq<char>, Seq<char>),
    | #[trigger] le(x, y) && #[trigger] le(y, z) implies le(x, z) by {
        if x.0 == y.0 && y.0 == z.0 {
            lemma_text_transitive(x.1, y.1, z.1);
        } else if x.0 != y.0 && y.0 != z.0 {
            lemma_text_transitive(x.0, y.0, z.0);
            if x.0 == z.0 {
                lemma_text_antisymmetric(x.0, y.0);
            }
        }
    }
    assert forall|x: (Seq<char>, Seq<char>), y: (Seq<char>, Seq<char>)| #[trigger]
        le(x, y) || #[trigger] le(y, x) by {
        lemma_text_total(x.0, y.0);
        lemma_text_total(x.1, y.1);
    }
}

/// Two lists of the same pairs are the same once they are sorted, whatever their order was.
pub proof fn sorting_forgets_the_order(
    a: Seq<(Seq<char>, Seq<char>)>,
    b: Seq<(Seq<char>, Seq<char>)>,
)
    requires
        a.to_multiset() == b.to_multiset(),
    ensures
        sorted_pairs(a) == sorted_pairs(b),
{
    let le = |a: (Seq<char>, Seq<char>), b: (Seq<char>, Seq<char>)| pair_le(a, b);
    pairs_are_ordered();
    a.lemma_sort_by_ensures(le);
    b.lemma_sort_by_ensures(le);
    vstd::seq_lib::lemma_sorted_unique(sorted_pairs(a), sorted_pairs(b), le);
}

fn text_not_after(a: &str, b: &str) -> (le: bool)
    ensures
        le == text_le(a@, b@),
{
    let left = chars_of(a);
    let right = chars_of(b);
    let mut i: usize = 0;
    assert(a@.skip(0) =~= a@);
    assert(b@.skip(0) =~= b@);
    loop
        invariant
            left@ == a@,
            right@ == b@,
            i <= left@.len(),
            i <= right@.len(),
            text_le(a@, b@) == text_le(a@.skip(i as int), b@.skip(i as int)),
        decreases left@.len() - i,
    {
        if i == left.len() {
            return true;
        }
        if i == right.len() {
            return false;
        }
        assert(a@.skip(i as int)[0] == left@[i as int]);
        assert(b@.skip(i as int)[0] == right@[i as int]);
        if left[i] != right[i] {
            return left[i] < right[i];
        }
        assert(a@.skip(i as int).drop_first() =~= a@.skip(i + 1));
        assert(b@.skip(i as int).drop_first() =~= b@.skip(i + 1));
        i = i + 1;
    }
}

fn pair_not_after(a: &(String, String), b: &(String, String)) -> (le: bool)
    ensures
        le == pair_le((a.0@, a.1@), (b.0@, b.1@)),
{
    if a.0 == b.0 {
        text_not_after(a.1.as_str(), b.1.as_str())
    } else {
        text_not_after(a.0.as_str(), b.0.as_str())
    }
}

/// Sorts pairs.
pub fn sort_pairs(pairs: Vec<(String, String)>) -> (sorted: Vec<(String, String)>)
    ensures
        metrics::pair_texts(sorted@) == sorted_pairs(metrics::pair_texts(pairs@)),
{
    let ghost le = |a: (Seq<char>, Seq<char>), b: (Seq<char>, Seq<char>)| pair_le(a, b);
    let ghost whole = metrics::pair_texts(pairs@);
    let mut rest = pairs;
    let mut sorted: Vec<(String, String)> = Vec::new();
    proof {
        pairs_are_ordered();
        vstd::seq_lib::to_multiset_len(metrics::pair_texts(sorted@));
        assert(metrics::pair_texts(sorted@).to_multiset().add(
            metrics::pair_texts(rest@).to_multiset(),
        ) =~= whole.to_multiset());
    }
    while rest.len() > 0
        invariant
            le == |a: (Seq<char>, Seq<char>), b: (Seq<char>, Seq<char>)| pair_le(a, b),
            vstd::relations::total_ordering(le),
            vstd::relations::sorted_by(metrics::pair_texts(sorted@), le),
            metrics::pair_texts(sorted@).to_multiset().add(
                metrics::pair_texts(rest@).to_multiset(),
            ) =~= whole.to_multiset(),
        decreases rest@.len(),
    {
        let ghost rest_before = metrics::pair_texts(rest@);
        let ghost before = metrics::pair_texts(sorted@);
        let item = rest.pop().unwrap();
        let ghost pair = (item.0@, item.1@);
        let mut at: usize = 0;
        while at < sorted.len() && pair_not_after(&sorted[at], &item)
            invariant
                before == metrics::pair_texts(sorted@),
                pair == (item.0@, item.1@),
                le == |a: (Seq<char>, Seq<char>), b: (Seq<char>, Seq<char>)| pair_le(a, b),
                at <= sorted@.len(),
                forall|j: int| 0 <= j < at ==> le(#[trigger] before[j], pair),
            ensures
                at <= sorted@.len(),
                forall|j: int| 0 <= j < at ==> le(#[trigger] before[j], pair),
                at < sorted@.len() ==> !le(before[at as int], pair),
            decreases sorted@.len() - at,
        {
            assert(before[at as int] == (sorted@[at as int].0@, sorted@[at as int].1@));
            at = at + 1;
        }
        sorted.insert(at, item);
        proof {
            let after = metrics::pair_texts(sorted@);
            assert(after =~= before.insert(at as int, pair));
            assert(metrics::pair_texts(rest@).push(pair) =~= rest_before);
            vstd::seq_lib::to_multiset_insert(before, at as int, pair);
            vstd::seq_lib::to_multiset_build(metrics::pair_texts(rest@), pair);
            assert(after.to_multiset().add(metrics::pair_texts(rest@).to_multiset())
                =~= before.to_multiset().add(rest_before.to_multiset()));
            assert forall|i: int, j: int| 0 <= i < j < after.len() implies #[trigger] le(
                after[i],
                after[j],
            ) by {
                if i < at && j < at {
                    assert(le(before[i], before[j]));
                } else if i < at && j == at {
                    assert(le(before[i], pair));
                } else if i < at {
                    assert(le(before[i], before[j - 1]));
                } else if i == at {
                    assert(le(pair, before[at as int]));
                    if j - 1 > at {
                        assert(le(before[at as int], before[j - 1]));
                    }
                } else {
                    assert(le(before[i - 1], before[j - 1]));
                }
            }
        }
    }
    proof {
        let out = metrics::pair_texts(sorted@);
        assert(metrics::pair_texts(rest@) =~= Seq::<(Seq<char>, Seq<char>)>::empty());
        vstd::seq_lib::to_multiset_len(metrics::pair_texts(rest@));
        assert(out.to_multiset() =~= whole.to_multiset());
        whole.lemma_sort_by_ensures(le);
        vstd::seq_lib::lemma_sorted_unique(out, sorted_pairs(whole), le);
    }
    sorted
}

/// Whether one text stands before another in a dictionary: it is the beginning of the other, or at the
/// first place where they differ it has the smaller character.
pub open spec fn comes_first(a: Seq<char>, b: Seq<char>) -> bool {
    ||| a.len() <= b.len() && forall|i: int| 0 <= i < a.len() ==> a[i] == #[trigger] b[i]
    ||| exists|at: int|
        0 <= at < a.len() && at < b.len() && #[trigger] a[at] < b[at] && forall|i: int|
            0 <= i < at ==> a[i] == #[trigger] b[i]
}

proof fn lemma_comes_first(a: Seq<char>, b: Seq<char>)
    ensures
        text_le(a, b) <==> comes_first(a, b),
    decreases a.len(),
{
    if a.len() > 0 && b.len() > 0 {
        let x = a.drop_first();
        let y = b.drop_first();
        lemma_comes_first(x, y);
        if a[0] == b[0] {
            if comes_first(x, y) {
                if x.len() <= y.len() && (forall|i: int|
                    0 <= i < x.len() ==> x[i] == #[trigger] y[i]) {
                    assert forall|i: int| 0 <= i < a.len() implies a[i] == #[trigger] b[i] by {
                        if i > 0 {
                            assert(x[i - 1] == y[i - 1]);
                        }
                    }
                } else {
                    let at = choose|at: int|
                        0 <= at < x.len() && at < y.len() && #[trigger] x[at] < y[at] && forall|i: int|
                            0 <= i < at ==> x[i] == #[trigger] y[i];
                    assert(a[at + 1] < b[at + 1]);
                    assert forall|i: int| 0 <= i < at + 1 implies a[i] == #[trigger] b[i] by {
                        if i > 0 {
                            assert(x[i - 1] == y[i - 1]);
                        }
                    }
                }
            }
            if comes_first(a, b) {
                if a.len() <= b.len() && (forall|i: int|
                    0 <= i < a.len() ==> a[i] == #[trigger] b[i]) {
                    assert forall|i: int| 0 <= i < x.len() implies x[i] == #[trigger] y[i] by {
                        assert(a[i + 1] == b[i + 1]);
                    }
                } else {
                    let at = choose|at: int|
                        0 <= at < a.len() && at < b.len() && #[trigger] a[at] < b[at] && forall|i: int|
                            0 <= i < at ==> a[i] == #[trigger] b[i];
                    assert(x[at - 1] < y[at - 1]);
                    assert forall|i: int| 0 <= i < at - 1 implies x[i] == #[trigger] y[i] by {
                        assert(a[i + 1] == b[i + 1]);
                    }
                }
            }
        } else if a[0] < b[0] {
            assert(comes_first(a, b));
        } else if comes_first(a, b) {
            let at = choose|at: int|
                0 <= at < a.len() && at < b.len() && #[trigger] a[at] < b[at] && forall|i: int|
                    0 <= i < at ==> a[i] == #[trigger] b[i];
            assert(a[0] == b[0]);
        }
    }
}

/// Sorting keeps each pair as often as it was given, and puts them in the order of a dictionary: by
/// their first texts, and by their second ones where the first are the same.
pub proof fn sorted_pairs_are_those_given_in_order(
    pairs: Vec<(String, String)>,
    sorted: Vec<(String, String)>,
    i: int,
    j: int,
)
    requires
        call_ensures(sort_pairs, (pairs,), sorted),
        0 <= i < j < sorted@.len(),
    ensures
        sorted@.map_values(|pair: (String, String)| (pair.0@, pair.1@)).to_multiset()
            == pairs@.map_values(|pair: (String, String)| (pair.0@, pair.1@)).to_multiset(),
        sorted@[i].0@ != sorted@[j].0@ ==> comes_first(sorted@[i].0@, sorted@[j].0@),
        sorted@[i].0@ == sorted@[j].0@ ==> comes_first(sorted@[i].1@, sorted@[j].1@),
{
    let le = |a: (Seq<char>, Seq<char>), b: (Seq<char>, Seq<char>)| pair_le(a, b);
    let texts = |pair: (String, String)| (pair.0@, pair.1@);
    let given = pairs@.map_values(texts);
    let got = sorted@.map_values(texts);
    assert(given =~= metrics::pair_texts(pairs@));
    assert(got =~= metrics::pair_texts(sorted@));
    pairs_are_ordered();
    given.lemma_sort_by_ensures(le);
    assert(le(got[i], got[j]));
    lemma_comes_first(sorted@[i].0@, sorted@[j].0@);
    lemma_comes_first(sorted@[i].1@, sorted@[j].1@);
}

/// Sorted pairs of texts are those that were given, in the order of a dictionary.
pub proof fn sorted_texts_are_in_order(pairs: Seq<(Seq<char>, Seq<char>)>, i: int, j: int)
    ensures
        sorted_pairs(pairs).to_multiset() == pairs.to_multiset(),
        0 <= i < j < sorted_pairs(pairs).len() && sorted_pairs(pairs)[i].0 != sorted_pairs(
            pairs,
        )[j].0 ==> comes_first(sorted_pairs(pairs)[i].0, sorted_pairs(pairs)[j].0),
        0 <= i < j < sorted_pairs(pairs).len() && sorted_pairs(pairs)[i].0 == sorted_pairs(
            pairs,
        )[j].0 ==> comes_first(sorted_pairs(pairs)[i].1, sorted_pairs(pairs)[j].1),
{
    let le = |a: (Seq<char>, Seq<char>), b: (Seq<char>, Seq<char>)| pair_le(a, b);
    let sorted = sorted_pairs(pairs);
    pairs_are_ordered();
    pairs.lemma_sort_by_ensures(le);
    if 0 <= i < j < sorted.len() {
        assert(le(sorted[i], sorted[j]));
        lemma_comes_first(sorted[i].0, sorted[j].0);
        lemma_comes_first(sorted[i].1, sorted[j].1);
    }
}

} // verus!
