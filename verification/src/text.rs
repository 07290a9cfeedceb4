//! Small helpers on text.

use vstd::prelude::*;

verus! {

/// Whether two texts are equal.
pub fn text_eq(a: &str, b: &str) -> (res: bool)
    ensures
        res == (a@ == b@),
{
    a.to_owned() == b.to_owned()
}

/// The text behind `prefix`, where `s` starts with it.
pub fn strip_prefix<'a>(s: &'a str, prefix: &str) -> (res: Option<&'a str>)
    ensures
        match res {
            Some(rest) => s@ == prefix@ + rest@,
            None => forall|rest: Seq<char>| s@ != #[trigger] (prefix@ + rest),
        },
{
    let total: usize = s.unicode_len();
    let skip: usize = prefix.unicode_len();
    if total >= skip && text_eq(s.substring_char(0, skip), prefix) {
        let rest = s.substring_char(skip, total);
        assert(s@ =~= prefix@ + rest@);
        Some(rest)
    } else {
        proof {
            assert forall|rest: Seq<char>| s@ != #[trigger] (prefix@ + rest) by {
                if s@ == prefix@ + rest {
                    assert(s@.subrange(0, skip as int) =~= prefix@);
                }
            }
        }
        None
    }
}

/// `a`, a slash, and `b`.
pub fn slash_joined(a: &str, b: &str) -> (res: String)
    ensures
        res@ == a@ + "/"@ + b@,
{
    a.to_owned().concat("/").concat(b)
}

/// A copy of an optional text.
pub fn clone_text(s: &Option<String>) -> (res: Option<String>)
    ensures
        res == *s,
{
    match s {
        Some(t) => Some(t.clone()),
        None => None,
    }
}

} // verus!
