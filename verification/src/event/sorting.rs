use vstd::prelude::*;

verus! {

/// Whether a sequence is non-decreasing under `key`.
pub open spec fn sorted_by<T>(s: Seq<T>, key: spec_fn(T) -> int) -> bool {
    forall|i: int, j: int| 0 <= i <= j < s.len() ==> key(s[i]) <= key(s[j])
}

/// The integer that orders a primary key and a small secondary rank lexicographically.
pub open spec fn ranked_key(primary: i128, rank: u8) -> int {
    3 * primary + rank
}

/// Whether an item has key `k`.
pub open spec fn key_equals<T>(key: spec_fn(T) -> int, k: int) -> spec_fn(T) -> bool {
    |t: T| key(t) == k
}

/// Reordering `items` into `r` keeps the relative order of items with equal keys.
pub open spec fn stable_under<T>(r: Seq<T>, items: Seq<T>, key: spec_fn(T) -> int) -> bool {
    forall|k: int| #[trigger] r.filter(key_equals(key, k)) == items.filter(key_equals(key, k))
}

proof fn filter_without_matches<T>(s: Seq<T>, pred: spec_fn(T) -> bool)
    requires
        forall|i: int| 0 <= i < s.len() ==> !pred(#[trigger] s[i]),
    ensures
        s.filter(pred) == Seq::<T>::empty(),
    decreases s.len(),
{
    reveal(Seq::filter);
    if s.len() > 0 {
        let rest = s.drop_last();
        assert forall|i: int| 0 <= i < rest.len() implies !pred(#[trigger] rest[i]) by {
            assert(rest[i] == s[i]);
        }
        filter_without_matches(rest, pred);
        assert(!pred(s[s.len() - 1]));
    }
}

proof fn filter_singleton<T>(x: T, pred: spec_fn(T) -> bool)
    ensures
        seq![x].filter(pred) == (if pred(x) { seq![x] } else { Seq::<T>::empty() }),
{
    reveal(Seq::filter);
    assert(seq![x].drop_last() =~= Seq::<T>::empty());
    assert(Seq::<T>::empty().filter(pred) == Seq::<T>::empty());
    if pred(x) {
        assert(Seq::<T>::empty().push(x) =~= seq![x]);
    }
}

/// Strict lexicographic order on a primary key and a rank below three.
fn ranked_lt(a: (i128, u8), b: (i128, u8)) -> (r: bool)
    requires
        a.1 < 3,
        b.1 < 3,
    ensures
        r == (ranked_key(a.0, a.1) < ranked_key(b.0, b.1)),
{
    a.0 < b.0 || (a.0 == b.0 && a.1 < b.1)
}

/// Sorts items stably into non-decreasing key order.
///
/// `key_of` computes a primary key and a rank below three whose lexicographic
/// order is the order of the spec function `key`. Items with equal keys keep
/// their relative order.
pub(crate) fn sort_by_key<T, F: Fn(&T) -> (i128, u8)>(items: Vec<T>, Ghost(key): Ghost<spec_fn(T) -> int>, key_of: F) -> (r: Vec<T>)
    requires
        forall|t: T| #[trigger] key_of.requires((&t,)),
        forall|t: T, k: (i128, u8)| key_of.ensures((&t,), k) ==> k.1 < 3 && ranked_key(k.0, k.1) == key(t),
    ensures
        r@.to_multiset() == items@.to_multiset(),
        r@.len() == items@.len(),
        sorted_by(r@, key),
        stable_under(r@, items@, key),
{
    broadcast use vstd::seq_lib::group_to_multiset_ensures;
    broadcast use vstd::multiset::group_multiset_properties;

    let ghost input = items@;
    let mut rest = items;
    let mut sorted: Vec<T> = Vec::new();
    while rest.len() > 0
        invariant
            forall|t: T| #[trigger] key_of.requires((&t,)),
            forall|t: T, k: (i128, u8)| key_of.ensures((&t,), k) ==> k.1 < 3 && ranked_key(k.0, k.1) == key(t),
            sorted@.to_multiset().add(rest@.to_multiset()) == input.to_multiset(),
            sorted@.len() + rest@.len() == input.len(),
            sorted_by(sorted@, key),
            rest@ == input.take(rest@.len() as int),
            forall|k: int| #[trigger] sorted@.filter(key_equals(key, k)) == input.subrange(
                rest@.len() as int,
                input.len() as int,
            ).filter(key_equals(key, k)),
        decreases rest.len(),
    {
        let ghost before = rest@;
        let x = rest.pop().unwrap();
        proof {
            assert(before == rest@.push(x));
        }
        let kx = key_of(&x);
        let mut j: usize = 0;
        while j < sorted.len() && ranked_lt(key_of(&sorted[j]), kx)
            invariant
                forall|t: T| #[trigger] key_of.requires((&t,)),
                forall|t: T, k: (i128, u8)| key_of.ensures((&t,), k) ==> k.1 < 3 && ranked_key(k.0, k.1) == key(t),
                kx.1 < 3,
                ranked_key(kx.0, kx.1) == key(x),
                j <= sorted.len(),
                forall|i: int| 0 <= i < j ==> key(#[trigger] sorted@[i]) < key(x),
            decreases sorted.len() - j,
        {
            j = j + 1;
        }
        let ghost old_sorted = sorted@;
        proof {
            if j < sorted.len() {
                assert(key(sorted@[j as int]) >= key(x));
            }
        }
        sorted.insert(j, x);
        proof {
            assert(sorted@ == old_sorted.insert(j as int, x));
            assert forall|a: int, b: int| 0 <= a <= b < sorted@.len() implies key(sorted@[a]) <= key(sorted@[b]) by {
                if a < j && b < j {
                } else if a < j && b == j {
                } else if a < j && b > j {
                    assert(sorted@[b] == old_sorted[b - 1]);
                } else if a == j && b == j {
                } else if a == j && b > j {
                    assert(sorted@[b] == old_sorted[b - 1]);
                    assert(key(old_sorted[j as int]) >= key(x));
                } else {
                    assert(sorted@[a] == old_sorted[a - 1]);
                    assert(sorted@[b] == old_sorted[b - 1]);
                }
            }
            vstd::seq_lib::to_multiset_insert(old_sorted, j as int, x);
            vstd::seq_lib::to_multiset_build(rest@, x);
            assert(sorted@.to_multiset() == old_sorted.to_multiset().insert(x));
            assert(before.to_multiset() == rest@.to_multiset().insert(x));
            assert(sorted@.to_multiset().add(rest@.to_multiset()) =~= old_sorted.to_multiset().add(before.to_multiset()));
            let n = input.len() as int;
            let processed = input.subrange(before.len() as int, n);
            let extended = input.subrange(rest@.len() as int, n);
            assert(rest@ =~= input.take(rest@.len() as int));
            assert(extended =~= seq![x] + processed);
            assert(old_sorted =~= old_sorted.take(j as int) + old_sorted.skip(j as int));
            assert(sorted@ =~= old_sorted.take(j as int) + (seq![x] + old_sorted.skip(j as int)));
            assert forall|k: int| #[trigger] sorted@.filter(key_equals(key, k)) == extended.filter(key_equals(key, k)) by {
                let p = key_equals(key, k);
                let head = old_sorted.take(j as int);
                let tail = old_sorted.skip(j as int);
                Seq::filter_distributes_over_add(head, seq![x] + tail, p);
                Seq::filter_distributes_over_add(seq![x], tail, p);
                Seq::filter_distributes_over_add(head, tail, p);
                Seq::filter_distributes_over_add(seq![x], processed, p);
                filter_singleton(x, p);
                assert(old_sorted.filter(p) == processed.filter(p));
                if key(x) == k {
                    assert forall|i: int| 0 <= i < head.len() implies !p(#[trigger] head[i]) by {
                        assert(head[i] == old_sorted[i]);
                    }
                    filter_without_matches(head, p);
                    assert(head.filter(p) + seq![x].filter(p) + tail.filter(p) == seq![x].filter(p) + (head.filter(p)
                        + tail.filter(p)));
                } else {
                    assert(seq![x].filter(p) == Seq::<T>::empty());
                    assert(head.filter(p) + (seq![x].filter(p) + tail.filter(p)) =~= seq![x].filter(p) + (head.filter(p)
                        + tail.filter(p)));
                }
            }
        }
    }
    proof {
        assert(rest@ =~= Seq::<T>::empty());
        assert(rest@.to_multiset() =~= vstd::multiset::Multiset::<T>::empty());
        assert(input.subrange(0, input.len() as int) =~= input);
    }
    sorted
}

/// The items of `s` that start a run of equal keys: each item whose key differs from
/// that of the item before it.
pub open spec fn first_of_each_key<T>(s: Seq<T>, key: spec_fn(T) -> int) -> Seq<T>
    decreases s.len(),
{
    if s.len() == 0 {
        s
    } else {
        let rest = first_of_each_key(s.drop_last(), key);
        if s.len() >= 2 && key(s[s.len() - 2]) == key(s.last()) {
            rest
        } else {
            rest.push(s.last())
        }
    }
}

/// Keeps the first item of each run of equal keys in a key-sorted sequence.
///
/// The result has strictly increasing keys.
pub(crate) fn keep_first_of_each_key<T: Copy, F: Fn(&T) -> (i128, u8)>(
    items: &Vec<T>,
    Ghost(key): Ghost<spec_fn(T) -> int>,
    key_of: F,
) -> (r: Vec<T>)
    requires
        sorted_by(items@, key),
        forall|t: T| #[trigger] key_of.requires((&t,)),
        forall|t: T, k: (i128, u8)| key_of.ensures((&t,), k) ==> k.1 < 3 && ranked_key(k.0, k.1) == key(t),
    ensures
        r@ == first_of_each_key(items@, key),
        forall|i: int, j: int| 0 <= i < j < r@.len() ==> key(r@[i]) < key(r@[j]),
{
    let mut out: Vec<T> = Vec::new();
    let mut i: usize = 0;
    while i < items.len()
        invariant
            i <= items@.len(),
            sorted_by(items@, key),
            forall|t: T| #[trigger] key_of.requires((&t,)),
            forall|t: T, k: (i128, u8)| key_of.ensures((&t,), k) ==> k.1 < 3 && ranked_key(k.0, k.1) == key(t),
            out@ == first_of_each_key(items@.take(i as int), key),
            forall|a: int, b: int| 0 <= a < b < out@.len() ==> key(out@[a]) < key(out@[b]),
            i > 0 ==> out@.len() > 0 && key(out@.last()) == key(items@[i - 1]),
            i == 0 ==> out@.len() == 0,
        decreases items@.len() - i,
    {
        let prefix = Ghost(items@.take(i as int + 1));
        proof {
            assert(prefix@.drop_last() =~= items@.take(i as int));
            assert(prefix@.last() == items@[i as int]);
            if i > 0 {
                assert(prefix@[prefix@.len() - 2] == items@[i - 1]);
            }
        }
        let keep = if i == 0 {
            true
        } else {
            let previous = key_of(&items[i - 1]);
            let current = key_of(&items[i]);
            previous.0 != current.0 || previous.1 != current.1
        };
        if keep {
            proof {
                if i > 0 {
                    assert(key(items@[i - 1]) <= key(items@[i as int]));
                }
            }
            let item = items[i];
            out.push(item);
        }
        i = i + 1;
    }
    proof {
        assert(items@.take(items@.len() as int) =~= items@);
    }
    out
}

} // verus!
