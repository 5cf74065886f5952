//! Stable order of rows.

use crate::text::chars_of;
use vstd::prelude::*;
use vstd::seq_lib::{to_multiset_insert, to_multiset_remove};

verus! {

/// Dictionary order by code point.
pub open spec fn text_le(a: Seq<char>, b: Seq<char>) -> bool
    decreases a.len(),
{
    if a.len() == 0 {
        true
    } else if b.len() == 0 {
        false
    } else {
        a[0] < b[0] || (a[0] == b[0] && text_le(a.drop_first(), b.drop_first()))
    }
}

/// `text_le` as a function on strings.
pub fn text_up_to(a: &str, b: &str) -> (r: bool)
    ensures
        r == text_le(a@, b@),
{
    let x = chars_of(a);
    let y = chars_of(b);
    let mut i: usize = 0;
    assert(a@.skip(0) =~= a@);
    assert(b@.skip(0) =~= b@);
    while i < x.len() && i < y.len() && x[i] == y[i]
        invariant
            i <= x.len(),
            i <= y.len(),
            x@ == a@,
            y@ == b@,
            text_le(a@, b@) == text_le(a@.skip(i as int), b@.skip(i as int)),
        decreases x.len() - i,
    {
        assert(a@.skip(i as int).drop_first() =~= a@.skip(i + 1));
        assert(b@.skip(i as int).drop_first() =~= b@.skip(i + 1));
        i += 1;
    }
    if i == x.len() {
        true
    } else if i == y.len() {
        false
    } else {
        x[i] < y[i]
    }
}

/// Dictionary order is total.
pub proof fn law_text_order_total(a: Seq<char>, b: Seq<char>)
    ensures
        text_le(a, b) || text_le(b, a),
    decreases a.len(),
{
    if a.len() > 0 && b.len() > 0 && a[0] == b[0] {
        law_text_order_total(a.drop_first(), b.drop_first());
    }
}

/// Dictionary order is transitive.
pub proof fn law_text_order_transitive(a: Seq<char>, b: Seq<char>, c: Seq<char>)
    requires
        text_le(a, b),
        text_le(b, c),
    ensures
        text_le(a, c),
    decreases a.len(),
{
    if a.len() > 0 && b.len() > 0 && c.len() > 0 && a[0] == b[0] && b[0] == c[0] {
        law_text_order_transitive(a.drop_first(), b.drop_first(), c.drop_first());
    }
}

/// Two texts that precede each other are the same.
pub proof fn law_text_order_antisymmetric(a: Seq<char>, b: Seq<char>)
    requires
        text_le(a, b),
        text_le(b, a),
    ensures
        a == b,
    decreases a.len(),
{
    if a.len() > 0 && b.len() > 0 {
        let x = a.drop_first();
        let y = b.drop_first();
        assert(a[0] == b[0] && text_le(x, y) && text_le(y, x));
        law_text_order_antisymmetric(x, y);
        assert(a.len() == x.len() + 1 && b.len() == y.len() + 1);
        assert forall|i: int| 0 <= i < a.len() implies a[i] == b[i] by {
            if i > 0 {
                assert(a[i] == x[i - 1] && b[i] == y[i - 1]);
            }
        }
    }
    assert(a =~= b);
}

/// A sort key: a number, then two texts, then a number.
pub type SortKey = (int, Seq<char>, Seq<char>, int);

/// One text stands before another.
pub open spec fn text_lt(a: Seq<char>, b: Seq<char>) -> bool {
    a != b && text_le(a, b)
}

/// Order of sort keys.
pub open spec fn key_le(a: SortKey, b: SortKey) -> bool {
    a.0 < b.0 || (a.0 == b.0 && (text_lt(a.1, b.1) || (a.1 == b.1 && (text_lt(a.2, b.2) || (a.2
        == b.2 && a.3 <= b.3)))))
}

proof fn lemma_key_le_total(a: SortKey, b: SortKey)
    ensures
        key_le(a, b) || key_le(b, a),
{
    law_text_order_total(a.1, b.1);
    law_text_order_total(a.2, b.2);
}

proof fn lemma_key_le_transitive(a: SortKey, b: SortKey, c: SortKey)
    requires
        key_le(a, b),
        key_le(b, c),
    ensures
        key_le(a, c),
{
    if a.0 == b.0 && b.0 == c.0 {
        if a.1 != b.1 && b.1 != c.1 {
            law_text_order_transitive(a.1, b.1, c.1);
            if a.1 == c.1 {
                law_text_order_antisymmetric(a.1, b.1);
            }
        } else if a.1 == b.1 && b.1 == c.1 && a.2 != b.2 && b.2 != c.2 {
            law_text_order_transitive(a.2, b.2, c.2);
            if a.2 == c.2 {
                law_text_order_antisymmetric(a.2, b.2);
            }
        }
    }
}

/// A row with a sort key.
pub trait Keyed: Sized {
    spec fn key(self) -> SortKey;

    fn up_to(&self, other: &Self) -> (r: bool)
        ensures
            r == key_le(self.key(), other.key()),
    ;
}

/// Rows stand in the order of their keys.
pub open spec fn in_order<T: Keyed>(s: Seq<T>) -> bool {
    forall|i: int, j: int| 0 <= i <= j < s.len() ==> key_le(#[trigger] s[i].key(), #[trigger] s[j].key())
}

proof fn lemma_insert_in_order<T: Keyed>(s: Seq<T>, p: int, x: T)
    requires
        in_order(s),
        0 <= p <= s.len(),
        forall|k: int| 0 <= k < p ==> key_le(#[trigger] s[k].key(), x.key()),
        forall|k: int| p <= k < s.len() ==> key_le(x.key(), #[trigger] s[k].key()),
    ensures
        in_order(s.insert(p, x)),
{
    let t = s.insert(p, x);
    assert forall|i: int, j: int| 0 <= i <= j < t.len() implies key_le(
        #[trigger] t[i].key(),
        #[trigger] t[j].key(),
    ) by {
        lemma_key_le_total(x.key(), x.key());
        let i2 = if i < p {
            i
        } else {
            i - 1
        };
        let j2 = if j < p {
            j
        } else {
            j - 1
        };
        if i != p {
            assert(t[i] == s[i2]);
        }
        if j != p {
            assert(t[j] == s[j2]);
        }
        if i != p && j != p {
            assert(key_le(s[i2].key(), s[j2].key()));
        } else if i == p && j != p {
            assert(key_le(x.key(), s[j2].key()));
        } else if i != p && j == p {
            assert(key_le(s[i2].key(), x.key()));
        }
    }
}

/// Where a row goes: behind every row whose key is not greater.
pub open spec fn slot<T: Keyed>(s: Seq<T>, x: T) -> int
    decreases s.len(),
{
    if s.len() == 0 || key_le(s.last().key(), x.key()) {
        s.len() as int
    } else {
        slot(s.drop_last(), x)
    }
}

/// Rows in the order of their keys; rows with equal keys stay as they stood.
pub open spec fn arranged<T: Keyed>(s: Seq<T>) -> Seq<T>
    decreases s.len(),
{
    if s.len() == 0 {
        s
    } else {
        let before = arranged(s.drop_last());
        before.insert(slot(before, s.last()), s.last())
    }
}

/// The rows of `v` in the order of their keys; rows with equal keys stay as they stood.
pub fn sorted<T: Keyed>(v: Vec<T>) -> (r: Vec<T>)
    ensures
        r@ == arranged(v@),
        in_order(r@),
        r@.to_multiset() == v@.to_multiset(),
        r@.len() == v@.len(),
{
    let ghost all = v@;
    let mut rest = v;
    let mut out: Vec<T> = Vec::new();
    proof {
        assert(out@.to_multiset() =~= vstd::multiset::Multiset::empty()) by {
            broadcast use vstd::seq_lib::group_to_multiset_ensures;

            out@.to_multiset_ensures();
        }
        assert(out@.to_multiset().add(rest@.to_multiset()) =~= all.to_multiset());
    }
    assert(all.take(0) =~= Seq::empty());
    while rest.len() > 0
        invariant
            in_order(out@),
            out@ == arranged(all.take(out@.len() as int)),
            rest@ =~= all.skip(out@.len() as int),
            out@.len() + rest@.len() == all.len(),
            out@.to_multiset().add(rest@.to_multiset()) =~= all.to_multiset(),
        decreases rest.len(),
    {
        let ghost before = rest@;
        let x = rest.remove(0);
        let mut p: usize = out.len();
        assert(out@.take(p as int) =~= out@);
        proof {
            assert(all.take((out@.len() + 1) as int).drop_last() =~= all.take(out@.len() as int));
            assert(all.take((out@.len() + 1) as int).last() == x);
            to_multiset_remove(before, 0);
            vstd::seq_lib::to_multiset_contains(before, x);
            assert(before.contains(x)) by {
                assert(before[0] == x);
            }
        }
        while p > 0 && !out[p - 1].up_to(&x)
            invariant
                p <= out.len(),
                in_order(out@),
                slot(out@, x) == slot(out@.take(p as int), x),
                forall|k: int| p <= k < out@.len() ==> key_le(x.key(), #[trigger] out@[k].key()),
            decreases p,
        {
            proof {
                lemma_key_le_total(x.key(), out@[p - 1].key());
                assert(out@.take(p as int).drop_last() =~= out@.take(p - 1));
            }
            p -= 1;
        }
        proof {
            assert forall|k: int| 0 <= k < p implies key_le(#[trigger] out@[k].key(), x.key()) by {
                assert(key_le(out@[k].key(), out@[p - 1].key()));
                lemma_key_le_transitive(out@[k].key(), out@[p - 1].key(), x.key());
            }
            lemma_insert_in_order(out@, p as int, x);
            to_multiset_insert(out@, p as int, x);
        }
        let ghost out_before = out@;
        assert(slot(out@, x) == p);
        out.insert(p, x);
        proof {
            assert(out@.to_multiset() == out_before.to_multiset().insert(x));
            assert(out@.to_multiset().add(rest@.to_multiset()) =~= out_before.to_multiset().add(
                before.to_multiset(),
            ));
        }
    }
    proof {
        assert(rest@ =~= Seq::<T>::empty());
        assert(all.take(out@.len() as int) =~= all);
        assert(rest@.to_multiset() =~= vstd::multiset::Multiset::empty()) by {
            broadcast use vstd::seq_lib::group_to_multiset_ensures;

            rest@.to_multiset_ensures();
        }
        assert(out@.to_multiset() =~= all.to_multiset());
    }
    out
}

/// A sequence and its reordering have the same members.
pub proof fn law_sorting_keeps_rows<T: Keyed>(s: Seq<T>, r: Seq<T>, x: T)
    requires
        s.to_multiset() == r.to_multiset(),
    ensures
        s.contains(x) == r.contains(x),
{
    vstd::seq_lib::to_multiset_contains(s, x);
    vstd::seq_lib::to_multiset_contains(r, x);
}

proof fn lemma_slot<T: Keyed>(s: Seq<T>, x: T)
    requires
        in_order(s),
    ensures
        0 <= slot(s, x) <= s.len(),
        forall|k: int| 0 <= k < slot(s, x) ==> key_le(#[trigger] s[k].key(), x.key()),
        forall|k: int| slot(s, x) <= k < s.len() ==> key_le(x.key(), #[trigger] s[k].key()),
    decreases s.len(),
{
    if s.len() > 0 {
        let t = s.drop_last();
        assert(in_order(t)) by {
            assert forall|i: int, j: int| 0 <= i <= j < t.len() implies key_le(
                #[trigger] t[i].key(),
                #[trigger] t[j].key(),
            ) by {
                assert(key_le(s[i].key(), s[j].key()));
            }
        }
        if key_le(s.last().key(), x.key()) {
            assert forall|k: int| 0 <= k < s.len() implies key_le(#[trigger] s[k].key(), x.key()) by {
                assert(key_le(s[k].key(), s[s.len() - 1].key()));
                lemma_key_le_transitive(s[k].key(), s[s.len() - 1].key(), x.key());
            }
        } else {
            lemma_slot(t, x);
            lemma_key_le_total(s.last().key(), x.key());
            assert forall|k: int| slot(s, x) <= k < s.len() implies key_le(
                x.key(),
                #[trigger] s[k].key(),
            ) by {
                if k < t.len() {
                    assert(s[k] == t[k]);
                }
            }
            assert forall|k: int| 0 <= k < slot(s, x) implies key_le(
                #[trigger] s[k].key(),
                x.key(),
            ) by {
                assert(s[k] == t[k]);
            }
        }
    }
}

/// Arranging puts rows in order, and neither loses nor adds one.
pub proof fn law_arranged<T: Keyed>(s: Seq<T>)
    ensures
        in_order(arranged(s)),
        arranged(s).len() == s.len(),
        forall|x: T| #[trigger] arranged(s).contains(x) <==> s.contains(x),
    decreases s.len(),
{
    if s.len() > 0 {
        let t = s.drop_last();
        let b = arranged(t);
        let x = s.last();
        law_arranged(t);
        lemma_slot(b, x);
        let p = slot(b, x);
        lemma_insert_in_order(b, p, x);
        let r = arranged(s);
        assert forall|y: T| #[trigger] r.contains(y) <==> s.contains(y) by {
            if r.contains(y) {
                let k = choose|k: int| 0 <= k < r.len() && r[k] == y;
                if k == p {
                    assert(s[s.len() - 1] == y);
                } else {
                    let q = if k < p {
                        k
                    } else {
                        k - 1
                    };
                    assert(b[q] == y);
                    assert(b.contains(y));
                    let i = choose|i: int| 0 <= i < t.len() && t[i] == y;
                    assert(s[i] == y);
                }
            }
            if s.contains(y) {
                let i = choose|i: int| 0 <= i < s.len() && s[i] == y;
                if i == s.len() - 1 {
                    assert(r[p] == y);
                } else {
                    assert(t[i] == y);
                    assert(t.contains(y));
                    assert(b.contains(y));
                    let q = choose|q: int| 0 <= q < b.len() && b[q] == y;
                    let k = if q < p {
                        q
                    } else {
                        q + 1
                    };
                    assert(r[k] == y);
                }
            }
        }
    }
}

} // verus!
