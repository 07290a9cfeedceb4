//! The first row of a table that meets a condition.

use vstd::prelude::*;

verus! {

/// The first element of `s` that meets `p`.
pub open spec fn first_where<T>(s: Seq<T>, p: spec_fn(T) -> bool) -> Option<T>
    decreases s.len(),
{
    if s.len() == 0 {
        None
    } else if p(s[0]) {
        Some(s[0])
    } else {
        first_where(s.drop_first(), p)
    }
}

/// Nothing is found exactly where no element meets the condition; what is
/// found meets it, and is an element.
pub proof fn lemma_first_where<T>(s: Seq<T>, p: spec_fn(T) -> bool)
    ensures
        first_where(s, p) is None <==> (forall|i: int| 0 <= i < s.len() ==> !p(#[trigger] s[i])),
        first_where(s, p) matches Some(t) ==> p(t) && s.contains(t),
    decreases s.len(),
{
    if s.len() > 0 && !p(s[0]) {
        let rest = s.drop_first();
        lemma_first_where(rest, p);
        if first_where(rest, p) is None {
            assert forall|i: int| 0 <= i < s.len() implies !p(#[trigger] s[i]) by {
                if i > 0 {
                    assert(s[i] == rest[i - 1]);
                }
            }
        } else {
            let t = first_where(rest, p)->0;
            let k = choose|k: int| 0 <= k < rest.len() && rest[k] == t;
            assert(s[k + 1] == t);
        }
    } else if s.len() > 0 {
        assert(s.contains(s[0]));
    }
}

/// A search that has passed over `i` elements goes on in the rest.
pub proof fn lemma_first_where_skip<T>(s: Seq<T>, p: spec_fn(T) -> bool, i: int)
    requires
        0 <= i <= s.len(),
        forall|j: int| 0 <= j < i ==> !p(#[trigger] s[j]),
    ensures
        first_where(s, p) == first_where(s.skip(i), p),
    decreases i,
{
    if i == 0 {
        assert(s.skip(0) =~= s);
    } else {
        lemma_first_where_skip(s, p, i - 1);
        assert(s.skip(i - 1).drop_first() =~= s.skip(i));
        assert(s.skip(i - 1)[0] == s[i - 1]);
    }
}

/// Looks for the first row that passes `test`.
pub(crate) fn find<'a, T, F: Fn(&T) -> bool>(
    rows: &'a Vec<T>,
    test: F,
    Ghost(p): Ghost<spec_fn(T) -> bool>,
) -> (res: Option<&'a T>)
    requires
        forall|t: &T| #[trigger] test.requires((t,)),
        forall|t: &T, b: bool| #[trigger] test.ensures((t,), b) ==> b == p(*t),
    ensures
        match res {
            Some(row) => first_where(rows@, p) == Some(*row),
            None => first_where(rows@, p) is None,
        },
{
    let mut i: usize = 0;
    while i < rows.len()
        invariant
            i <= rows@.len(),
            forall|t: &T| #[trigger] test.requires((t,)),
            forall|t: &T, b: bool| #[trigger] test.ensures((t,), b) ==> b == p(*t),
            forall|j: int| 0 <= j < i ==> !p(#[trigger] rows@[j]),
        decreases rows@.len() - i,
    {
        if test(&rows[i]) {
            proof {
                lemma_first_where_skip(rows@, p, i as int);
                assert(rows@.skip(i as int)[0] == rows@[i as int]);
            }
            return Some(&rows[i]);
        }
        i = i + 1;
    }
    proof {
        lemma_first_where_skip(rows@, p, i as int);
    }
    None
}


/// What is found is the first element that meets the condition: no earlier one
/// does.
pub proof fn law_first_where_is_first<T>(s: Seq<T>, p: spec_fn(T) -> bool, i: int)
    requires
        0 <= i < s.len(),
        p(s[i]),
        forall|j: int| 0 <= j < i ==> !p(#[trigger] s[j]),
    ensures
        first_where(s, p) == Some(s[i]),
{
    lemma_first_where_skip(s, p, i);
    assert(s.skip(i)[0] == s[i]);
}

/// The place of what is found.
pub proof fn lemma_first_where_place<T>(s: Seq<T>, p: spec_fn(T) -> bool) -> (i: int)
    requires
        first_where(s, p) is Some,
    ensures
        0 <= i < s.len(),
        s[i] == first_where(s, p)->0,
        p(s[i]),
        forall|j: int| 0 <= j < i ==> !p(#[trigger] s[j]),
    decreases s.len(),
{
    if p(s[0]) {
        0
    } else {
        let rest = s.drop_first();
        let k = lemma_first_where_place(rest, p);
        assert forall|j: int| 0 <= j < k + 1 implies !p(#[trigger] s[j]) by {
            if j > 0 {
                assert(s[j] == rest[j - 1]);
            }
        }
        k + 1
    }
}

} // verus!
