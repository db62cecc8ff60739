//! Finite sets held in vectors.
//!
//! Gap sets are kept sorted by a rank that follows the declaration order of
//! the gap enums, so two sets with the same members are equal vectors and
//! iterate in the same order an ordered set would. String sets keep their
//! members unique.

use vstd::prelude::*;

verus! {

/// Types with an injective integer rank that orders their values.
pub trait Ranked: Sized + Copy {
    spec fn rank_spec(&self) -> int;

    fn rank(&self) -> (r: u64)
        ensures
            r as int == self.rank_spec(),
    ;

    proof fn lemma_rank_injective(a: Self, b: Self)
        requires
            a.rank_spec() == b.rank_spec(),
        ensures
            a == b,
    ;
}

/// The members of a vector, as a set.
pub open spec fn set_of<T>(v: Seq<T>) -> Set<T> {
    Set::new(|x: T| v.contains(x))
}

/// Strictly increasing by rank: sorted with no duplicates.
pub open spec fn rank_sorted<T: Ranked>(v: Seq<T>) -> bool {
    forall|i: int, j: int| 0 <= i < j < v.len() ==> v[i].rank_spec() < v[j].rank_spec()
}

/// Whether `x` is a member.
pub fn set_contains<T: Ranked>(v: &Vec<T>, x: T) -> (found: bool)
    ensures
        found == v@.contains(x),
{
    let xr = x.rank();
    let mut i: usize = 0;
    while i < v.len()
        invariant
            i <= v.len(),
            xr as int == x.rank_spec(),
            forall|j: int| 0 <= j < i ==> v@[j] != x,
        decreases v.len() - i,
    {
        if v[i].rank() == xr {
            proof {
                T::lemma_rank_injective(v@[i as int], x);
            }
            return true;
        }
        i = i + 1;
    }
    false
}

/// Adding one element at the end adds it to the set.
pub proof fn lemma_set_of_push<T>(s: Seq<T>, x: T)
    ensures
        set_of(s.push(x)) == set_of(s).insert(x),
{
    assert(s.push(x) =~= s.insert(s.len() as int, x));
    lemma_set_of_insert(s, s.len() as int, x);
}

/// Inserting one element anywhere adds it to the set.
pub proof fn lemma_set_of_insert<T>(s: Seq<T>, i: int, x: T)
    requires
        0 <= i <= s.len(),
    ensures
        set_of(s.insert(i, x)) == set_of(s).insert(x),
{
    let after = s.insert(i, x);
    assert forall|y: T| after.contains(y) <==> (s.contains(y) || y == x) by {
        if after.contains(y) {
            let k = choose|k: int| 0 <= k < after.len() && after[k] == y;
            if k < i {
                assert(s[k] == y);
            } else if k > i {
                assert(s[k - 1] == y);
            }
        }
        if s.contains(y) {
            let k = choose|k: int| 0 <= k < s.len() && s[k] == y;
            if k < i {
                assert(after[k] == y);
            } else {
                assert(after[k + 1] == y);
            }
        }
        if y == x {
            assert(after[i] == x);
        }
    }
    assert(set_of(after) =~= set_of(s).insert(x));
}

/// Adds `x`, keeping rank order.
pub fn set_insert<T: Ranked>(v: &mut Vec<T>, x: T)
    ensures
        set_of(final(v)@) == set_of(old(v)@).insert(x),
        rank_sorted(old(v)@) ==> rank_sorted(final(v)@),
        old(v)@.contains(x) ==> final(v)@ == old(v)@,
{
    if set_contains(v, x) {
        assert(set_of(v@) =~= set_of(v@).insert(x));
        return;
    }
    let xr = x.rank();
    let mut i: usize = 0;
    while i < v.len()
        invariant
            i <= v.len(),
            xr as int == x.rank_spec(),
            !v@.contains(x),
            forall|j: int| 0 <= j < i ==> v@[j].rank_spec() < xr,
        ensures
            i <= v.len(),
            forall|j: int| 0 <= j < i ==> v@[j].rank_spec() < xr,
            i < v.len() ==> v@[i as int].rank_spec() > xr,
        decreases v.len() - i,
    {
        let r = v[i].rank();
        if r == xr {
            proof {
                T::lemma_rank_injective(v@[i as int], x);
                assert(v@.contains(x));
            }
        }
        if r > xr {
            break;
        }
        i = i + 1;
    }
    let ghost before = v@;
    v.insert(i, x);
    proof {
        lemma_set_of_insert(before, i as int, x);
        let after = v@;
        if rank_sorted(before) {
            assert forall|a: int, b: int| 0 <= a < b < after.len() implies after[a].rank_spec() < after[b].rank_spec() by {
                if b < i {
                } else if b == i {
                } else if a < i {
                    assert(after[b] == before[b - 1]);
                } else if a == i {
                    assert(after[b] == before[b - 1]);
                    assert(before[i as int].rank_spec() > xr);
                    if b - 1 > i {
                        assert(before[i as int].rank_spec() < before[b - 1].rank_spec());
                    }
                } else {
                    assert(after[a] == before[a - 1]);
                    assert(after[b] == before[b - 1]);
                }
            }
        }
    }
}

/// `s` with `x` added when `cond` holds.
pub open spec fn insert_if<T>(s: Set<T>, cond: bool, x: T) -> Set<T> {
    if cond { s.insert(x) } else { s }
}

/// Adds `x`, keeping rank order, when `cond` holds.
pub fn set_insert_if<T: Ranked>(v: &mut Vec<T>, cond: bool, x: T)
    ensures
        set_of(final(v)@) == insert_if(set_of(old(v)@), cond, x),
        rank_sorted(old(v)@) ==> rank_sorted(final(v)@),
{
    if cond {
        set_insert(v, x);
    }
}

/// Drops `x`, keeping rank order.
pub fn set_remove<T: Ranked>(v: &mut Vec<T>, x: T)
    ensures
        set_of(final(v)@) == set_of(old(v)@).remove(x),
        rank_sorted(old(v)@) ==> rank_sorted(final(v)@),
{
    let ghost before = v@;
    let xr = x.rank();
    let mut out: Vec<T> = Vec::new();
    let mut i: usize = 0;
    while i < v.len()
        invariant
            i <= v.len(),
            v@ == before,
            xr as int == x.rank_spec(),
            forall|y: T| out@.contains(y) <==> (exists|j: int| 0 <= j < i && before[j] == y && y != x),
            rank_sorted(before) ==> rank_sorted(out@),
            rank_sorted(before) ==> forall|k: int| 0 <= k < out@.len() ==> exists|j: int|
                0 <= j < i && before[j] == #[trigger] out@[k],
        decreases v.len() - i,
    {
        let y = v[i];
        if y.rank() == xr {
            proof {
                T::lemma_rank_injective(y, x);
            }
        } else {
            let ghost old_out = out@;
            out.push(y);
            proof {
                assert forall|z: T| out@.contains(z) <==> (exists|j: int| 0 <= j < i + 1 && before[j] == z && z != x) by {
                    if out@.contains(z) {
                        let k = choose|k: int| 0 <= k < out@.len() && out@[k] == z;
                        if k < old_out.len() {
                            assert(old_out.contains(z));
                        }
                    }
                    if exists|j: int| 0 <= j < i + 1 && before[j] == z && z != x {
                        let j = choose|j: int| 0 <= j < i + 1 && before[j] == z && z != x;
                        if j < i {
                            assert(old_out.contains(z));
                            let k = choose|k: int| 0 <= k < old_out.len() && old_out[k] == z;
                            assert(out@[k] == z);
                        } else {
                            assert(out@[old_out.len() as int] == z);
                        }
                    }
                }
                if rank_sorted(before) {
                    assert forall|a: int, b: int| 0 <= a < b < out@.len() implies out@[a].rank_spec() < out@[b].rank_spec() by {
                        if b == old_out.len() {
                            let j = choose|j: int| 0 <= j < i && before[j] == #[trigger] old_out[a];
                            assert(before[j] == out@[a]);
                        }
                    }
                    assert forall|k: int| 0 <= k < out@.len() implies exists|j: int|
                        0 <= j < i + 1 && before[j] == #[trigger] out@[k] by {
                        if k < old_out.len() {
                            let j = choose|j: int| 0 <= j < i && before[j] == #[trigger] old_out[k];
                            assert(before[j] == out@[k]);
                        } else {
                            assert(before[i as int] == out@[k]);
                        }
                    }
                }
            }
        }
        i = i + 1;
    }
    proof {
        assert forall|y: T| out@.contains(y) <==> (before.contains(y) && y != x) by {
            if before.contains(y) && y != x {
                let j = choose|j: int| 0 <= j < before.len() && before[j] == y;
                assert(exists|j: int| 0 <= j < before.len() && before[j] == y && y != x);
            }
        }
        assert(set_of(out@) =~= set_of(before).remove(x));
    }
    *v = out;
}

/// Adds every member of `other`.
pub fn set_extend<T: Ranked>(v: &mut Vec<T>, other: &Vec<T>)
    ensures
        set_of(final(v)@) == set_of(old(v)@).union(set_of(other@)),
        rank_sorted(old(v)@) ==> rank_sorted(final(v)@),
{
    let ghost start = v@;
    let mut i: usize = 0;
    while i < other.len()
        invariant
            i <= other.len(),
            set_of(v@) == set_of(start).union(set_of(other@.subrange(0, i as int))),
            rank_sorted(start) ==> rank_sorted(v@),
        decreases other.len() - i,
    {
        let ghost prev = v@;
        set_insert(v, other[i]);
        proof {
            assert(other@.subrange(0, i + 1) =~= other@.subrange(0, i as int).push(other@[i as int]));
            lemma_set_of_push(other@.subrange(0, i as int), other@[i as int]);
            assert(set_of(v@) =~= set_of(start).union(set_of(other@.subrange(0, i + 1))));
        }
        i = i + 1;
    }
    assert(other@.subrange(0, other@.len() as int) =~= other@);
}

/// Whether the set has no member.
pub fn set_is_empty<T>(v: &Vec<T>) -> (empty: bool)
    ensures
        empty == (set_of(v@) == Set::<T>::empty()),
{
    if v.len() == 0 {
        assert(set_of(v@) =~= Set::<T>::empty());
        true
    } else {
        assert(set_of(v@).contains(v@[0]));
        false
    }
}

// ---------------------------------------------------------------------
// String sets

/// The members of a vector of strings, as a set of character sequences.
pub open spec fn string_set(v: Seq<String>) -> Set<Seq<char>> {
    Set::new(|s: Seq<char>| exists|i: int| 0 <= i < v.len() && #[trigger] v[i]@ == s)
}

/// No string occurs twice.
pub open spec fn strings_unique(v: Seq<String>) -> bool {
    forall|i: int, j: int| 0 <= i < j < v.len() ==> v[i]@ != v[j]@
}

/// Whether `s` is a member.
pub fn strings_contain(v: &Vec<String>, s: &str) -> (found: bool)
    ensures
        found == string_set(v@).contains(s@),
{
    let mut i: usize = 0;
    while i < v.len()
        invariant
            i <= v.len(),
            forall|j: int| 0 <= j < i ==> v@[j]@ != s@,
        decreases v.len() - i,
    {
        if crate::text::str_eq(v[i].as_str(), s) {
            assert(v@[i as int]@ == s@);
            return true;
        }
        i = i + 1;
    }
    false
}

/// Adds `s` at the end unless it is already a member.
pub fn strings_insert(v: &mut Vec<String>, s: String)
    ensures
        string_set(final(v)@) == string_set(old(v)@).insert(s@),
        strings_unique(old(v)@) ==> strings_unique(final(v)@),
{
    if strings_contain(v, s.as_str()) {
        assert(string_set(v@) =~= string_set(v@).insert(s@));
        return;
    }
    let ghost before = v@;
    v.push(s);
    proof {
        assert forall|t: Seq<char>| string_set(v@).contains(t) <==> string_set(before).insert(s@).contains(t) by {
            if string_set(v@).contains(t) {
                let k = choose|k: int| 0 <= k < v@.len() && #[trigger] v@[k]@ == t;
                if k < before.len() {
                    assert(before[k]@ == t);
                }
            }
            if string_set(before).contains(t) {
                let k = choose|k: int| 0 <= k < before.len() && #[trigger] before[k]@ == t;
                assert(v@[k]@ == t);
            }
            if t == s@ {
                assert(v@[before.len() as int]@ == t);
            }
        }
        assert(string_set(v@) =~= string_set(before).insert(s@));
    }
}

/// Whether every member of `needles` is a member of `v`.
pub fn strings_contain_all(v: &Vec<String>, needles: &Vec<String>) -> (all: bool)
    ensures
        all == string_set(needles@).subset_of(string_set(v@)),
{
    let mut i: usize = 0;
    while i < needles.len()
        invariant
            i <= needles.len(),
            forall|j: int| 0 <= j < i ==> string_set(v@).contains(#[trigger] needles@[j]@),
        decreases needles.len() - i,
    {
        if !strings_contain(v, needles[i].as_str()) {
            assert(string_set(needles@).contains(needles@[i as int]@));
            return false;
        }
        i = i + 1;
    }
    assert forall|t: Seq<char>| string_set(needles@).contains(t) implies string_set(v@).contains(t) by {
        let k = choose|k: int| 0 <= k < needles@.len() && #[trigger] needles@[k]@ == t;
    }
    true
}

/// A vector of owned copies of static string slices.
pub fn strings_from(items: &[&str]) -> (v: Vec<String>)
    ensures
        v@.len() == items@.len(),
        forall|i: int| 0 <= i < items@.len() ==> #[trigger] v@[i]@ == items@[i]@,
{
    let mut v: Vec<String> = Vec::new();
    let mut i: usize = 0;
    while i < items.len()
        invariant
            i <= items@.len(),
            v@.len() == i,
            forall|j: int| 0 <= j < i ==> #[trigger] v@[j]@ == items@[j]@,
        decreases items@.len() - i,
    {
        v.push(crate::text::owned(items[i]));
        i = i + 1;
    }
    v
}

} // verus!
