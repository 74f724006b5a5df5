//! Lists of texts used as sets that keep their order: permission ids, tags,
//! certifications and the like.
use vstd::prelude::*;

use crate::item::strings_view;
use crate::text::str_eq;

verus! {

/// Whether `i` is the first position of `s` in `v`.
pub open spec fn is_first_index(v: Seq<Seq<char>>, s: Seq<char>, i: int) -> bool {
    &&& 0 <= i < v.len()
    &&& v[i] == s
    &&& forall|j: int| 0 <= j < i ==> v[j] != s
}

/// The list without the first occurrence of `s`, or the list itself where `s` does not occur.
pub open spec fn without_first(v: Seq<Seq<char>>, s: Seq<char>) -> Seq<Seq<char>> {
    if v.contains(s) {
        v.remove(choose|i: int| is_first_index(v, s, i))
    } else {
        v
    }
}

/// The list with `s` added at its end, unless it holds `s` already.
pub open spec fn with_added(v: Seq<Seq<char>>, s: Seq<char>) -> Seq<Seq<char>> {
    if v.contains(s) {
        v
    } else {
        v.push(s)
    }
}

/// The first position of `s` in `v` (`iter().position`).
pub fn position_of(v: &Vec<String>, s: &str) -> (res: Option<usize>)
    ensures
        match res {
            Some(i) => is_first_index(strings_view(v@), s@, i as int),
            None => !strings_view(v@).contains(s@),
        },
{
    let ghost sv = strings_view(v@);
    let mut i: usize = 0;
    while i < v.len()
        invariant
            sv == strings_view(v@),
            sv.len() == v.len(),
            i <= v.len(),
            forall|j: int| 0 <= j < i ==> sv[j] != s@,
        decreases v.len() - i,
    {
        assert(sv[i as int] == v@[i as int]@);
        if str_eq(v[i].as_str(), s) {
            return Some(i);
        }
        i = i + 1;
    }
    proof {
        if sv.contains(s@) {
            let k = choose|k: int| 0 <= k < sv.len() && sv[k] == s@;
            assert(sv[k] != s@);
        }
    }
    None
}

/// Whether `v` holds `s` (`contains`).
pub fn holds(v: &Vec<String>, s: &str) -> (res: bool)
    ensures
        res == strings_view(v@).contains(s@),
{
    match position_of(v, s) {
        Some(i) => {
            assert(strings_view(v@)[i as int] == s@);
            true
        },
        None => false,
    }
}

/// Adds `s` at the end of `v` unless `v` holds it; tells whether it was added.
pub fn add_unique(v: &mut Vec<String>, s: String) -> (added: bool)
    ensures
        strings_view(final(v)@) == with_added(strings_view(old(v)@), s@),
        added == !strings_view(old(v)@).contains(s@),
        !added ==> *final(v) == *old(v),
{
    if holds(v, s.as_str()) {
        false
    } else {
        let ghost s_view = s@;
        v.push(s);
        assert(strings_view(v@) =~= strings_view(old(v)@).push(s_view));
        true
    }
}

/// Removes the first occurrence of `s` from `v`; tells whether there was one.
pub fn remove_first(v: &mut Vec<String>, s: &str) -> (removed: bool)
    ensures
        strings_view(final(v)@) == without_first(strings_view(old(v)@), s@),
        removed == strings_view(old(v)@).contains(s@),
        !removed ==> *final(v) == *old(v),
{
    match position_of(v, s) {
        Some(i) => {
            let ghost old_view = strings_view(v@);
            proof {
                assert(old_view[i as int] == s@);
                assert(old_view.contains(s@));
                let c = choose|k: int| is_first_index(old_view, s@, k);
                assert(is_first_index(old_view, s@, i as int));
                if c < i as int {
                    assert(old_view[c] != s@);
                } else if c > i as int {
                    assert(old_view[i as int] != s@);
                }
            }
            v.remove(i);
            assert(strings_view(v@) =~= old_view.remove(i as int));
            true
        },
        None => false,
    }
}

/// After `s` is added, the list holds `s`, and it holds what it held before.
pub proof fn lemma_added_holds(v: Seq<Seq<char>>, s: Seq<char>)
    ensures
        with_added(v, s).contains(s),
        forall|t: Seq<char>| v.contains(t) ==> #[trigger] with_added(v, s).contains(t),
{
    if !v.contains(s) {
        assert(v.push(s)[v.len() as int] == s);
        assert forall|t: Seq<char>| v.contains(t) implies #[trigger] v.push(s).contains(t) by {
            let k = choose|k: int| 0 <= k < v.len() && v[k] == t;
            assert(v.push(s)[k] == t);
        }
    }
}

/// Adding keeps a list free of repeats.
pub proof fn lemma_added_no_duplicates(v: Seq<Seq<char>>, s: Seq<char>)
    requires
        v.no_duplicates(),
    ensures
        with_added(v, s).no_duplicates(),
{
    if !v.contains(s) {
        let w = v.push(s);
        assert forall|i: int, j: int| 0 <= i < w.len() && 0 <= j < w.len() && i != j implies w[i] != w[j] by {
            if i < v.len() && j < v.len() {
                assert(w[i] == v[i] && w[j] == v[j]);
            } else if i == v.len() {
                assert(w[j] == v[j]);
            } else {
                assert(w[i] == v[i]);
            }
        }
    }
}

/// In a list free of repeats, removing `s` leaves no `s`.
pub proof fn lemma_removed_gone(v: Seq<Seq<char>>, s: Seq<char>)
    requires
        v.no_duplicates(),
    ensures
        !without_first(v, s).contains(s),
{
    if v.contains(s) {
        let i = choose|i: int| is_first_index(v, s, i);
        let k0 = choose|k: int| 0 <= k < v.len() && v[k] == s;
        assert(is_first_index(v, s, i)) by {
            assert(exists|i: int| is_first_index(v, s, i)) by {
                lemma_first_index_exists(v, s, k0);
            }
        }
        let w = v.remove(i);
        if w.contains(s) {
            let j = choose|j: int| 0 <= j < w.len() && w[j] == s;
            if j < i {
                assert(v[j] == s);
            } else {
                assert(v[j + 1] == s);
                assert(v[i] == v[j + 1]);
            }
        }
    }
}

/// Removing an element that was just added gives back the list.
pub proof fn lemma_remove_after_add(v: Seq<Seq<char>>, s: Seq<char>)
    requires
        !v.contains(s),
    ensures
        without_first(with_added(v, s), s) == v,
{
    let w = v.push(s);
    assert(w[v.len() as int] == s);
    assert(w.contains(s));
    assert(is_first_index(w, s, v.len() as int)) by {
        assert forall|j: int| 0 <= j < v.len() implies w[j] != s by {
            assert(w[j] == v[j]);
        }
    }
    let i = choose|i: int| is_first_index(w, s, i);
    if i < v.len() {
        assert(w[i] == v[i]);
    }
    assert(w.remove(v.len() as int) =~= v);
}

proof fn lemma_first_index_exists(v: Seq<Seq<char>>, s: Seq<char>, k: int)
    requires
        0 <= k < v.len(),
        v[k] == s,
    ensures
        exists|i: int| is_first_index(v, s, i),
    decreases k,
{
    if exists|j: int| 0 <= j < k && v[j] == s {
        let j = choose|j: int| 0 <= j < k && v[j] == s;
        lemma_first_index_exists(v, s, j);
    } else {
        assert(is_first_index(v, s, k));
    }
}

} // verus!
