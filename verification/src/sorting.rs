//! Ordering of the tables: a stable sort by the identifier field.
//!
//! Every entity kind orders by its integer identifier alone.  Duplicate
//! identifiers are permitted; the sort is stable, so records with equal
//! identifiers keep their relative order.

use vstd::prelude::*;
use crate::bean::{Relics, Element, Enemy, Localization, RaceAttribute};

verus! {

/// A record ordered by its stable integer identifier.
pub trait IdRecord: Sized {
    /// The identifier, as a mathematical integer.
    spec fn sid(self) -> int;

    /// The identifier.
    fn id_of(&self) -> (r: i32)
        ensures
            r as int == self.sid(),
    ;
}

impl IdRecord for Relics {
    open spec fn sid(self) -> int {
        self.id as int
    }

    fn id_of(&self) -> (r: i32) {
        self.id
    }
}

impl IdRecord for Element {
    open spec fn sid(self) -> int {
        self.id as int
    }

    fn id_of(&self) -> (r: i32) {
        self.id
    }
}

impl IdRecord for Enemy {
    open spec fn sid(self) -> int {
        self.id as int
    }

    fn id_of(&self) -> (r: i32) {
        self.id
    }
}

impl IdRecord for Localization {
    open spec fn sid(self) -> int {
        self.id as int
    }

    fn id_of(&self) -> (r: i32) {
        self.id
    }
}

impl IdRecord for RaceAttribute {
    open spec fn sid(self) -> int {
        self.id as int
    }

    fn id_of(&self) -> (r: i32) {
        self.id
    }
}

/// Ascending order by identifier: every earlier record's identifier is at
/// most every later one's, so in particular each adjacent pair is ordered.
pub open spec fn sorted_by_id<T: IdRecord>(s: Seq<T>) -> bool {
    forall|a: int, b: int| 0 <= a < b < s.len() ==> #[trigger] s[a].sid() <= #[trigger] s[b].sid()
}

/// The subsequence of records carrying identifier `k`, in order.
pub open spec fn with_id<T: IdRecord>(s: Seq<T>, k: int) -> Seq<T> {
    s.filter(|x: T| x.sid() == k)
}

/// Swapping two adjacent records with different identifiers does not change
/// any identifier's subsequence.
proof fn lemma_filter_swap2<T: IdRecord>(x: T, y: T, k: int)
    requires
        x.sid() != y.sid(),
    ensures
        with_id(seq![x, y], k) == with_id(seq![y, x], k),
{
    reveal_with_fuel(Seq::filter, 3);
    let pred = |t: T| t.sid() == k;
    assert(seq![x, y].drop_last() =~= seq![x]);
    assert(seq![y, x].drop_last() =~= seq![y]);
    assert(seq![x].drop_last() =~= Seq::<T>::empty());
    assert(seq![y].drop_last() =~= Seq::<T>::empty());
    assert(Seq::<T>::empty().filter(pred) == Seq::<T>::empty());
    assert(seq![x].last() == x);
    assert(seq![y].last() == y);
    assert(seq![x].filter(pred) == if pred(x) {
        Seq::<T>::empty().push(x)
    } else {
        Seq::<T>::empty()
    });
    assert(seq![y].filter(pred) == if pred(y) {
        Seq::<T>::empty().push(y)
    } else {
        Seq::<T>::empty()
    });
    assert(seq![x, y].last() == y);
    assert(seq![y, x].last() == x);
    assert(seq![x, y].filter(pred) == if pred(y) {
        seq![x].filter(pred).push(y)
    } else {
        seq![x].filter(pred)
    });
    assert(seq![y, x].filter(pred) == if pred(x) {
        seq![y].filter(pred).push(x)
    } else {
        seq![y].filter(pred)
    });
    if pred(x) {
        assert(!pred(y));
        assert(seq![x, y].filter(pred) =~= seq![y, x].filter(pred));
    } else if pred(y) {
        assert(!pred(x));
        assert(seq![x, y].filter(pred) =~= seq![y, x].filter(pred));
    } else {
        assert(seq![x, y].filter(pred) =~= seq![y, x].filter(pred));
    }
    assert(with_id(seq![x, y], k) == seq![x, y].filter(pred));
    assert(with_id(seq![y, x], k) == seq![y, x].filter(pred));
}

/// Swapping the records at `j - 1` and `j` preserves every identifier's
/// subsequence, provided their identifiers differ.
proof fn lemma_swap_adjacent<T: IdRecord>(s: Seq<T>, t: Seq<T>, j: int)
    requires
        1 <= j < s.len(),
        t.len() == s.len(),
        t[j - 1] == s[j],
        t[j] == s[j - 1],
        forall|m: int| 0 <= m < s.len() && m != j - 1 && m != j ==> #[trigger] t[m] == s[m],
        s[j - 1].sid() != s[j].sid(),
    ensures
        forall|k: int| #[trigger] with_id(t, k) == with_id(s, k),
{
    let pre = s.subrange(0, j - 1);
    let suf = s.subrange(j + 1, s.len() as int);
    assert(s =~= pre + seq![s[j - 1], s[j]] + suf);
    assert(t =~= pre + seq![s[j], s[j - 1]] + suf);
    assert forall|k: int| #[trigger] with_id(t, k) == with_id(s, k) by {
        let pred = |x: T| x.sid() == k;
        broadcast use vstd::seq_lib::group_filter_ensures;

        Seq::filter_distributes_over_add(pre + seq![s[j - 1], s[j]], suf, pred);
        Seq::filter_distributes_over_add(pre, seq![s[j - 1], s[j]], pred);
        Seq::filter_distributes_over_add(pre + seq![s[j], s[j - 1]], suf, pred);
        Seq::filter_distributes_over_add(pre, seq![s[j], s[j - 1]], pred);
        lemma_filter_swap2(s[j - 1], s[j], k);
    }
}

/// Sort a table in place, ascending by identifier.
///
/// The sort is stable: for every identifier, the subsequence of records
/// carrying it is exactly what it was before the call, in the same order.
pub fn sort_by_id<T: IdRecord>(v: &mut Vec<T>)
    ensures
        sorted_by_id(final(v)@),
        final(v)@.len() == old(v)@.len(),
        forall|k: int| #[trigger] with_id(final(v)@, k) == with_id(old(v)@, k),
{
    let ghost s0 = v@;
    let n = v.len();
    if n == 0 {
        return;
    }
    let mut i: usize = 1;
    while i < n
        invariant
            1 <= i <= n,
            v@.len() == n,
            n == old(v)@.len(),
            s0 == old(v)@,
            forall|a: int, b: int| 0 <= a < b < i ==> #[trigger] v@[a].sid()
                <= #[trigger] v@[b].sid(),
            forall|k: int| #[trigger] with_id(v@, k) == with_id(s0, k),
        decreases n - i,
    {
        let mut j: usize = i;
        while j > 0 && v[j - 1].id_of() > v[j].id_of()
            invariant
                0 <= j <= i < n,
                v@.len() == n,
                s0 == old(v)@,
                forall|a: int, b: int| 0 <= a < b <= i && b != j ==> #[trigger] v@[a].sid()
                    <= #[trigger] v@[b].sid(),
                forall|b: int| j < b <= i ==> #[trigger] v@[j as int].sid() <= v@[b].sid(),
                forall|k: int| #[trigger] with_id(v@, k) == with_id(s0, k),
            decreases j,
        {
            let ghost before = v@;
            let x = v.remove(j);
            v.insert(j - 1, x);
            proof {
                assert forall|m: int| 0 <= m < before.len() && m != j - 1 && m != j implies
                    #[trigger] v@[m] == before[m] by {
                    if m < j - 1 {
                        assert(before.remove(j as int)[m] == before[m]);
                        assert(v@[m] == before.remove(j as int)[m]);
                    } else {
                        assert(before.remove(j as int)[m - 1] == before[m]);
                        assert(v@[m] == before.remove(j as int)[m - 1]);
                    }
                }
                assert(v@[j - 1] == before[j as int]);
                assert(v@[j as int] == before.remove(j as int)[j - 1]);
                assert(before.remove(j as int)[j - 1] == before[j - 1]);
                lemma_swap_adjacent(before, v@, j as int);
            }
            j -= 1;
        }
        i += 1;
    }
}

/// After a sort, each adjacent pair of records is ordered by identifier.
pub proof fn lemma_sorted_adjacent<T: IdRecord>(s: Seq<T>)
    requires
        sorted_by_id(s),
    ensures
        forall|a: int| 0 <= a && a + 1 < s.len() ==> #[trigger] s[a].sid() <= s[a + 1].sid(),
{
}

} // verus!
