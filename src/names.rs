use vstd::prelude::*;

verus! {

/// The nicknames of `names` other than `n`, in their order.
pub open spec fn others_of(names: Seq<Seq<char>>, n: Seq<char>) -> Seq<Seq<char>> {
    names.filter(|m: Seq<char>| m != n)
}

/// The nicknames after an attempt to reserve `n`: it joins at the end if it was free.
pub open spec fn reserved(names: Seq<Seq<char>>, n: Seq<char>) -> Seq<Seq<char>> {
    if names.contains(n) {
        names
    } else {
        names.push(n)
    }
}

/// A name that does not occur leaves the sequence as it is.
pub proof fn lemma_others_of_absent(s: Seq<Seq<char>>, n: Seq<char>)
    requires
        !s.contains(n),
    ensures
        others_of(s, n) == s,
    decreases s.len(),
{
    reveal(Seq::filter);
    if s.len() > 0 {
        assert(!s.drop_last().contains(n)) by {
            if s.drop_last().contains(n) {
                let k = choose|k: int| 0 <= k < s.len() - 1 && s.drop_last()[k] == n;
                assert(s[k] == n);
            }
        }
        lemma_others_of_absent(s.drop_last(), n);
        assert(s.drop_last().push(s.last()) =~= s);
    }
}

/// In a sequence without duplicates, removing the one place that holds `n`
/// is the same as keeping every element other than `n`.
pub proof fn lemma_remove_is_others(names: Seq<Seq<char>>, i: int)
    requires
        names.no_duplicates(),
        0 <= i < names.len(),
    ensures
        names.remove(i) == others_of(names, names[i]),
{
    let n = names[i];
    let front = names.subrange(0, i);
    let back = names.subrange(i + 1, names.len() as int);
    let mid = seq![n];
    assert(names =~= front + mid + back);
    assert(!front.contains(n)) by {
        if front.contains(n) {
            let k = choose|k: int| 0 <= k < front.len() && front[k] == n;
            assert(names[k] == front[k]);
        }
    }
    assert(!back.contains(n)) by {
        if back.contains(n) {
            let k = choose|k: int| 0 <= k < back.len() && back[k] == n;
            assert(names[i + 1 + k] == back[k]);
        }
    }
    lemma_others_of_absent(front, n);
    lemma_others_of_absent(back, n);
    assert(others_of(front, n) == front);
    assert(others_of(back, n) == back);
    reveal_with_fuel(Seq::filter, 2);
    assert(mid.drop_last() =~= Seq::<Seq<char>>::empty());
    assert(others_of(mid, n) =~= Seq::<Seq<char>>::empty());
    Seq::filter_distributes_over_add(front + mid, back, |m: Seq<char>| m != n);
    Seq::filter_distributes_over_add(front, mid, |m: Seq<char>| m != n);
    assert(others_of(front + mid, n) == others_of(front, n) + others_of(mid, n));
    assert(others_of(names, n) == others_of(front + mid, n) + others_of(back, n));
    assert(names.remove(i) =~= front + back);
    assert(others_of(names, n) =~= front + back);
}

/// Whatever `others_of` keeps is not `n`, and it keeps every other name.
pub proof fn lemma_others_of(names: Seq<Seq<char>>, n: Seq<char>)
    ensures
        !others_of(names, n).contains(n),
        forall|m: Seq<char>| names.contains(m) && m != n ==> #[trigger] others_of(names, n).contains(m),
        forall|m: Seq<char>| #[trigger] others_of(names, n).contains(m) ==> names.contains(m),
        names.no_duplicates() ==> others_of(names, n).no_duplicates(),
    decreases names.len(),
{
    reveal(Seq::filter);
    let pred = |m: Seq<char>| m != n;
    if names.len() > 0 {
        let init = names.drop_last();
        lemma_others_of(init, n);
        assert(names =~= init.push(names.last()));
        assert forall|m: Seq<char>| names.contains(m) && m != n implies #[trigger] others_of(names, n).contains(m) by {
            if m != names.last() {
                let k = choose|k: int| 0 <= k < names.len() && names[k] == m;
                assert(init[k] == m);
                assert(init.contains(m));
            } else {
                assert(others_of(names, n).last() == m);
            }
        }
        assert forall|m: Seq<char>| #[trigger] others_of(names, n).contains(m) implies names.contains(m) by {
            if m != names.last() {
                let k = choose|k: int| 0 <= k < others_of(names, n).len() && others_of(names, n)[k] == m;
                assert(others_of(init, n).contains(m)) by {
                    if pred(names.last()) {
                        assert(others_of(init, n)[k] == m);
                    }
                }
                let j = choose|j: int| 0 <= j < init.len() && init[j] == m;
                assert(names[j] == m);
            }
        }
        if names.no_duplicates() {
            assert(init.no_duplicates());
            if pred(names.last()) {
                assert(!others_of(init, n).contains(names.last())) by {
                    if others_of(init, n).contains(names.last()) {
                        let j = choose|j: int| 0 <= j < init.len() && init[j] == names.last();
                        assert(names[j] == names[names.len() - 1]);
                    }
                }
            }
        }
    }
}

} // verus!
