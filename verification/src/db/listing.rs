//! Putting rows into the order in which they are listed.

use vstd::prelude::*;

verus! {

/// Rows that have an order in which they are listed. Rows of which neither
/// comes before the other may stand in either order.
pub trait Listed: Sized {
    spec fn comes_before(&self, other: &Self) -> bool;

    proof fn order_is_transitive(a: &Self, b: &Self, c: &Self)
        requires
            a.comes_before(b),
            b.comes_before(c),
        ensures
            a.comes_before(c),
    ;

    proof fn order_is_asymmetric(a: &Self, b: &Self)
        requires
            a.comes_before(b),
        ensures
            !b.comes_before(a),
    ;

    fn before(&self, other: &Self) -> (res: bool)
        ensures
            res == self.comes_before(other),
    ;
}

/// No row stands behind one that it should come before.
pub open spec fn in_order<T: Listed>(s: Seq<T>) -> bool {
    forall|i: int, j: int|
        #![trigger s[i], s[j]]
        0 <= i < j < s.len() ==> !s[j].comes_before(&s[i])
}

/// The same rows, each as often, in order.
pub open spec fn listing_of<T: Listed>(listed: Seq<T>, rows: Seq<T>) -> bool {
    &&& in_order(listed)
    &&& listed.to_multiset() == rows.to_multiset()
}

/// Puts `row` into a listing.
fn place<T: Listed>(listed: &mut Vec<T>, row: T)
    requires
        in_order(old(listed)@),
    ensures
        in_order(final(listed)@),
        final(listed)@.to_multiset() == old(listed)@.to_multiset().insert(row),
{
    let ghost before = listed@;
    let mut at: usize = listed.len();
    while at > 0 && !listed[at - 1].before(&row)
        invariant
            at <= listed@.len(),
            listed@ == before,
            forall|j: int| at <= j < listed@.len() ==> !(#[trigger] listed@[j]).comes_before(&row),
        decreases at,
    {
        at = at - 1;
    }
    proof {
        assert forall|i: int| 0 <= i < at implies !row.comes_before(&(#[trigger] before[i])) by {
            let last = before[at - 1];
            if row.comes_before(&before[i]) {
                T::order_is_transitive(&last, &row, &before[i]);
                if i == at - 1 {
                    T::order_is_asymmetric(&last, &last);
                }
            }
        }
        vstd::seq_lib::to_multiset_insert(before, at as int, row);
    }
    listed.insert(at, row);
    assert forall|i: int, j: int|
        #![trigger listed@[i], listed@[j]]
        0 <= i < j < listed@.len() implies !listed@[j].comes_before(&listed@[i]) by {
        let old_i = if i > at {
            i - 1
        } else {
            i
        };
        let old_j = if j > at {
            j - 1
        } else {
            j
        };
        if i != at && j != at {
            assert(listed@[i] == before[old_i]);
            assert(listed@[j] == before[old_j]);
        } else if i == at {
            assert(listed@[j] == before[old_j]);
        } else {
            assert(listed@[i] == before[old_i]);
        }
    }
}

/// Lists `rows`.
pub fn listing<T: Listed>(rows: Vec<T>) -> (res: Vec<T>)
    ensures
        listing_of(res@, rows@),
{
    let mut rows = rows;
    let mut listed: Vec<T> = Vec::new();
    let ghost all = rows@;
    proof {
        assert(listed@.to_multiset().add(rows@.to_multiset()) =~= all.to_multiset()) by {
            broadcast use vstd::seq_lib::to_multiset_len;

            assert(listed@.to_multiset() =~= vstd::multiset::Multiset::empty()) by {
                listed@.to_multiset_ensures();
            }
        }
    }
    while rows.len() > 0
        invariant
            in_order(listed@),
            listed@.to_multiset().add(rows@.to_multiset()) =~= all.to_multiset(),
        decreases rows@.len(),
    {
        let ghost left = rows@;
        let ghost placed = listed@;
        match rows.pop() {
            Some(row) => {
                place(&mut listed, row);
                proof {
                    assert(left =~= left.drop_last().push(row));
                    vstd::seq_lib::to_multiset_build(left.drop_last(), row);
                    assert(rows@ =~= left.drop_last());
                }
            },
            None => {},
        }
    }
    proof {
        assert(rows@ =~= Seq::empty());
        rows@.to_multiset_ensures();
        assert(rows@.to_multiset() =~= vstd::multiset::Multiset::empty());
        assert(listed@.to_multiset() =~= all.to_multiset());
    }
    listed
}

/// A listing holds the rows that it was made of, and no others, each as often.
pub proof fn law_listing_keeps_rows<T: Listed>(listed: Seq<T>, rows: Seq<T>)
    requires
        listing_of(listed, rows),
    ensures
        listed.len() == rows.len(),
        forall|row: T| listed.contains(row) <==> rows.contains(row),
{
    vstd::seq_lib::to_multiset_len(listed);
    vstd::seq_lib::to_multiset_len(rows);
    assert forall|row: T| listed.contains(row) <==> rows.contains(row) by {
        vstd::seq_lib::to_multiset_contains(listed, row);
        vstd::seq_lib::to_multiset_contains(rows, row);
    }
}

} // verus!
