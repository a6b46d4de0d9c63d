//! Sequences used as ordered sets: adding a value that is not yet there, and
//! taking a value out.

use vstd::prelude::*;

verus! {

/// `s` with `x` at its end, unless `s` holds `x` already.
pub open spec fn with_value<T>(s: Seq<T>, x: T) -> Seq<T> {
    if s.contains(x) {
        s
    } else {
        s.push(x)
    }
}

/// `s` without any occurrence of `x`, the rest in order.
pub open spec fn without<T>(s: Seq<T>, x: T) -> Seq<T> {
    s.filter(|y: T| y != x)
}

/// How `without` treats a sequence that grew by one value.
pub proof fn lemma_without_push<T>(s: Seq<T>, e: T, x: T)
    ensures
        without(s.push(e), x) == if e != x {
            without(s, x).push(e)
        } else {
            without(s, x)
        },
{
    Seq::lemma_filter_push(s, e, |y: T| y != x);
}

/// `without` of the empty sequence is empty.
pub proof fn lemma_without_empty<T>(x: T)
    ensures
        without(Seq::<T>::empty(), x) == Seq::<T>::empty(),
{
    reveal_with_fuel(Seq::filter, 1);
}

/// What `without` keeps: the values of `s` other than `x`.
pub proof fn lemma_without_contains<T>(s: Seq<T>, x: T, y: T)
    ensures
        without(s, x).contains(y) <==> (s.contains(y) && y != x),
    decreases s.len(),
{
    if s.len() == 0 {
        lemma_without_empty(x);
    } else {
        let init = s.drop_last();
        let e = s.last();
        assert(init.push(e) =~= s);
        lemma_without_push(init, e, x);
        lemma_without_contains(init, x, y);
        if s.contains(y) && y != x {
            let i = choose|i: int| 0 <= i < s.len() && s[i] == y;
            if i < s.len() - 1 {
                assert(init[i] == y);
                assert(init.contains(y));
                let j = choose|j: int| 0 <= j < without(init, x).len() && without(init, x)[j] == y;
                assert(without(s, x)[j] == y);
            } else {
                assert(e == y);
                assert(without(s, x) == without(init, x).push(e));
                assert(without(s, x)[without(init, x).len() as int] == y);
            }
        }
        if without(s, x).contains(y) {
            let j = choose|j: int| 0 <= j < without(s, x).len() && without(s, x)[j] == y;
            if e != x && j == without(init, x).len() {
                assert(s[s.len() - 1] == y);
            } else {
                assert(without(init, x)[j] == y);
                assert(without(init, x).contains(y));
                let i = choose|i: int| 0 <= i < init.len() && init[i] == y;
                assert(s[i] == y);
            }
        }
    }
}

/// Taking a value out of a sequence without repetitions leaves none.
pub proof fn lemma_without_no_duplicates<T>(s: Seq<T>, x: T)
    requires
        s.no_duplicates(),
    ensures
        without(s, x).no_duplicates(),
    decreases s.len(),
{
    if s.len() == 0 {
        lemma_without_empty(x);
    } else {
        let init = s.drop_last();
        let e = s.last();
        assert(init.push(e) =~= s);
        lemma_without_push(init, e, x);
        lemma_without_no_duplicates(init, x);
        if e != x {
            lemma_without_contains(init, x, e);
            assert(!init.contains(e)) by {
                if init.contains(e) {
                    let i = choose|i: int| 0 <= i < init.len() && init[i] == e;
                    assert(s[i] == s[s.len() - 1]);
                }
            }
            let w = without(init, x);
            assert forall|i: int, j: int| 0 <= i < j < w.push(e).len() implies w.push(e)[i]
                != w.push(e)[j] by {
                if j == w.len() {
                    assert(w.contains(w[i]));
                }
            }
        }
    }
}

/// Adding a value to a sequence without repetitions leaves none.
pub proof fn lemma_with_value_no_duplicates<T>(s: Seq<T>, x: T)
    requires
        s.no_duplicates(),
    ensures
        with_value(s, x).no_duplicates(),
        with_value(s, x).contains(x),
{
    if !s.contains(x) {
        let t = s.push(x);
        assert(t[s.len() as int] == x);
        assert forall|i: int, j: int| 0 <= i < j < t.len() implies t[i] != t[j] by {
            if j == s.len() {
                assert(s.contains(s[i]));
            }
        }
    }
}

} // verus!
