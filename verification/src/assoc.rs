//! Lists of named entries, as JSON objects arrive: lookup and removal by
//! name.
use vstd::prelude::*;
use vstd::string::*;

use crate::text::str_eq;

verus! {

/// The names of the entries, in order.
pub open spec fn names_of<T>(v: Seq<(String, T)>) -> Seq<Seq<char>> {
    v.map_values(|e: (String, T)| e.0@)
}

/// `p` is the first position of the name `k`.
pub open spec fn first_named<T>(v: Seq<(String, T)>, k: Seq<char>, p: int) -> bool {
    &&& 0 <= p < v.len()
    &&& v[p].0@ == k
    &&& forall|j: int| 0 <= j < p ==> v[j].0@ != k
}

/// The first position of the name `k`, where there is one.
pub open spec fn position_named<T>(v: Seq<(String, T)>, k: Seq<char>) -> int {
    choose|p: int| first_named(v, k, p)
}

fn find_named<T>(v: &Vec<(String, T)>, key: &str) -> (r: Option<usize>)
    ensures
        match r {
            Some(p) => first_named(v@, key@, p as int) && position_named(v@, key@) == p,
            None => !names_of(v@).contains(key@),
        },
{
    let mut i: usize = 0;
    while i < v.len()
        invariant
            i <= v@.len(),
            forall|j: int| 0 <= j < i ==> v@[j].0@ != key@,
        decreases v@.len() - i,
    {
        if str_eq(v[i].0.as_str(), key) {
            proof {
                assert(first_named(v@, key@, i as int));
                let p = position_named(v@, key@);
                if p < i {
                } else if p > i {
                    assert(v@[i as int].0@ == key@);
                }
            }
            return Some(i);
        }
        i = i + 1;
    }
    proof {
        if names_of(v@).contains(key@) {
            let j = choose|j: int| 0 <= j < names_of(v@).len() && names_of(v@)[j] == key@;
            assert(v@[j].0@ == key@);
        }
    }
    None
}

/// Takes the first entry named `key` out of the list, keeping the order of
/// the others, and returns its value.
pub fn take_named<T>(v: &mut Vec<(String, T)>, key: &str) -> (r: Option<T>)
    ensures
        names_of(old(v)@).contains(key@) ==> {
            let p = position_named(old(v)@, key@);
            &&& first_named(old(v)@, key@, p)
            &&& r == Some(old(v)@[p].1)
            &&& final(v)@ == old(v)@.remove(p)
        },
        !names_of(old(v)@).contains(key@) ==> r is None && final(v)@ == old(v)@,
{
    match find_named(v, key) {
        Some(p) => {
            assert(names_of(v@)[p as int] == key@);
            let e = v.remove(p);
            Some(e.1)
        },
        None => None,
    }
}

/// The value of the first entry named `key`.
pub fn get_named<'a, T>(v: &'a Vec<(String, T)>, key: &str) -> (r: Option<&'a T>)
    ensures
        names_of(v@).contains(key@) ==> {
            let p = position_named(v@, key@);
            &&& first_named(v@, key@, p)
            &&& r == Some(&v@[p].1)
        },
        !names_of(v@).contains(key@) ==> r is None,
{
    match find_named(v, key) {
        Some(p) => {
            assert(names_of(v@)[p as int] == key@);
            Some(&v[p].1)
        },
        None => None,
    }
}

} // verus!

verus! {

/// Sets the first entry named like `key` to `value`, or adds the entry at
/// the end where none is.
pub fn put_named<T>(v: &mut Vec<(String, T)>, key: String, value: T)
    ensures
        names_of(old(v)@).contains(key@) ==> {
            let p = position_named(old(v)@, key@);
            &&& first_named(old(v)@, key@, p)
            &&& final(v)@ == old(v)@.update(p, (key, value))
        },
        !names_of(old(v)@).contains(key@) ==> final(v)@ == old(v)@.push((key, value)),
{
    match find_named(v, key.as_str()) {
        Some(p) => {
            assert(names_of(v@)[p as int] == key@);
            let len = v.len();
            assert(p < len);
            let ghost before = v@;
            v.insert(p, (key, value));
            let _ = v.remove(p + 1);
            assert(v@ =~= before.update(p as int, (key, value)));
        },
        None => {
            v.push((key, value));
        },
    }
}

} // verus!

verus! {

/// A name that occurs in a list has a first position there.
pub proof fn lemma_first_named_exists<T>(v: Seq<(String, T)>, k: Seq<char>)
    requires
        names_of(v).contains(k),
    ensures
        first_named(v, k, position_named(v, k)),
    decreases v.len(),
{
    let front = v.drop_last();
    if names_of(front).contains(k) {
        lemma_first_named_exists(front, k);
        let q = position_named(front, k);
        assert forall|j: int| 0 <= j < q implies v[j].0@ != k by {
            assert(front[j] == v[j]);
        }
        assert(first_named(v, k, q));
    } else {
        let q = v.len() - 1;
        assert forall|j: int| 0 <= j < q implies v[j].0@ != k by {
            assert(front[j] == v[j]);
            assert(names_of(front)[j] == front[j].0@);
        }
        if v[q].0@ != k {
            let j = choose|j: int| 0 <= j < names_of(v).len() && names_of(v)[j] == k;
            assert(front[j] == v[j]);
            assert(names_of(front)[j] == k);
        }
        assert(first_named(v, k, q));
    }
}

/// Law: in a list with distinct names, taking out the entry named `k`
/// leaves no entry of that name, so a second lookup finds nothing.
pub proof fn law_take_named_consumes<T>(v: Seq<(String, T)>, k: Seq<char>)
    requires
        names_of(v).no_duplicates(),
        names_of(v).contains(k),
    ensures
        !names_of(v.remove(position_named(v, k))).contains(k),
{
    lemma_first_named_exists(v, k);
    let p = position_named(v, k);
    let u = v.remove(p);
    if names_of(u).contains(k) {
        let j = choose|j: int| 0 <= j < names_of(u).len() && names_of(u)[j] == k;
        let j0 = if j < p { j } else { j + 1 };
        assert(u[j] == v[j0]);
        assert(names_of(v)[j0] == k);
        assert(names_of(v)[p] == k);
    }
}

/// Names that are pairwise distinct.
pub open spec fn names_distinct<T>(v: Seq<(String, T)>) -> bool {
    names_of(v).no_duplicates()
}

/// Removing an entry keeps the names of a list pairwise distinct.
pub proof fn lemma_remove_keeps_distinct<T>(v: Seq<(String, T)>, p: int)
    requires
        names_distinct(v),
        0 <= p < v.len(),
    ensures
        names_distinct(v.remove(p)),
{
    let u = v.remove(p);
    assert forall|i: int, j: int| 0 <= i < names_of(u).len() && 0 <= j < names_of(u).len() && i != j implies names_of(u)[i]
        != names_of(u)[j] by {
        let i0 = if i < p { i } else { i + 1 };
        let j0 = if j < p { j } else { j + 1 };
        assert(u[i] == v[i0]);
        assert(u[j] == v[j0]);
        assert(names_of(v)[i0] != names_of(v)[j0]);
    }
}

/// In a list with distinct names, the entry at `i` is the one that a lookup
/// of its name finds.
pub proof fn lemma_distinct_position<T>(v: Seq<(String, T)>, i: int)
    requires
        names_distinct(v),
        0 <= i < v.len(),
    ensures
        names_of(v).contains(v[i].0@),
        position_named(v, v[i].0@) == i,
{
    let k = v[i].0@;
    assert(names_of(v)[i] == k);
    lemma_first_named_exists(v, k);
    let p = position_named(v, k);
    if p != i {
        assert(names_of(v)[p] == k);
    }
}

/// Setting or adding an entry by name keeps the names distinct.
pub proof fn lemma_put_keeps_distinct<T>(v: Seq<(String, T)>, key: String, value: T, after: Seq<(String, T)>)
    requires
        names_distinct(v),
        names_of(v).contains(key@) ==> after == v.update(position_named(v, key@), (key, value)),
        !names_of(v).contains(key@) ==> after == v.push((key, value)),
    ensures
        names_distinct(after),
{
    if names_of(v).contains(key@) {
        lemma_first_named_exists(v, key@);
        let p = position_named(v, key@);
        assert forall|i: int, j: int| 0 <= i < names_of(after).len() && 0 <= j < names_of(after).len() && i != j
            implies names_of(after)[i] != names_of(after)[j] by {
            assert(names_of(v)[p] == key@);
            if i != p && j != p {
                assert(names_of(v)[i] != names_of(v)[j]);
            } else if i == p {
                assert(names_of(v)[j] != names_of(v)[p]);
            } else {
                assert(names_of(v)[i] != names_of(v)[p]);
            }
        }
    } else {
        assert forall|i: int, j: int| 0 <= i < names_of(after).len() && 0 <= j < names_of(after).len() && i != j
            implies names_of(after)[i] != names_of(after)[j] by {
            if i < v.len() && j < v.len() {
                assert(names_of(v)[i] != names_of(v)[j]);
            } else if i < v.len() {
                assert(names_of(v)[i] == after[i].0@);
            } else {
                assert(names_of(v)[j] == after[j].0@);
            }
        }
    }
}

} // verus!
