//! Identifiers and instants.

use vstd::prelude::*;

verus! {

/// A UUID, held as the big-endian number that its sixteen octets spell.
#[derive(Clone, Copy, Debug, PartialEq, Eq, Hash, Structural)]
pub struct Uuid {
    pub bits: u128,
}

/// A point in time, in microseconds since the Unix epoch (the resolution of
/// the database's `timestamptz`).
#[derive(Clone, Copy, Debug, PartialEq, Eq, Hash, Structural)]
pub struct Timestamp {
    pub micros: i64,
}

/// The pseudonym under which a person is known. It stands in every table in
/// place of the person's account number.
#[derive(Debug, PartialEq, Eq)]
pub struct PseudoId {
    pub text: String,
}

impl View for PseudoId {
    type V = Seq<char>;

    open spec fn view(&self) -> Seq<char> {
        self.text@
    }
}

impl Clone for PseudoId {
    fn clone(&self) -> (res: Self)
        ensures
            res == *self,
    {
        PseudoId { text: self.text.clone() }
    }
}

impl PseudoId {
    /// The pseudonym as text.
    pub fn as_str(&self) -> (res: &str)
        ensures
            res@ == self@,
            res@ == self.text@,
    {
        self.text.as_str()
    }

    /// Whether two pseudonyms are the same text.
    pub fn same(&self, other: &PseudoId) -> (res: bool)
        ensures
            res == (self@ == other@),
            res == (self.text@ == other.text@),
    {
        self.text == other.text
    }
}

/// The lower-case hexadecimal digit of a number below sixteen.
pub open spec fn hex_digit(n: u128) -> char {
    if n < 10 {
        ('0' as int + n) as char
    } else {
        ('a' as int + n - 10) as char
    }
}

/// The `k`-th hexadecimal digit of `bits`, the most significant one first.
pub open spec fn digit_at(bits: u128, k: int) -> char {
    hex_digit((bits >> ((124 - 4 * k) as u128)) & 0xf)
}

/// Thirty-two digits in a row.
pub open spec fn simple_form(bits: u128) -> Seq<char> {
    Seq::new(32, |k: int| digit_at(bits, k))
}

/// The digits in groups of eight, four, four, four and twelve, with hyphens
/// between the groups.
pub open spec fn hyphenated_form(bits: u128) -> Seq<char> {
    let s = simple_form(bits);
    s.subrange(0, 8) + seq!['-'] + s.subrange(8, 12) + seq!['-'] + s.subrange(12, 16) + seq!['-']
        + s.subrange(16, 20) + seq!['-'] + s.subrange(20, 32)
}

/// `s` with the letters `A` to `Z` in lower case.
pub open spec fn lower_case(s: Seq<char>) -> Seq<char> {
    s.map_values(
        |c: char|
            if 'A' <= c && c <= 'Z' {
                (c as int + 32) as char
            } else {
                c
            },
    )
}

/// Whether `s` is one of the spellings of the UUID `bits`: its digits alone,
/// hyphenated, hyphenated in braces, or hyphenated behind `urn:uuid:`, with
/// letters of either case.
pub open spec fn spells_uuid(s: Seq<char>, bits: u128) -> bool {
    ||| lower_case(s) == simple_form(bits)
    ||| lower_case(s) == hyphenated_form(bits)
    ||| lower_case(s) == seq!['{'] + hyphenated_form(bits) + seq!['}']
    ||| lower_case(s) == "urn:uuid:"@ + hyphenated_form(bits)
}

/// `uuid::Uuid`'s `FromStr`. The claim: a text is accepted if and only if it is
/// one of the spellings of a UUID, and the result is the UUID that it spells.
#[verifier::external_body]
fn parse_bits(s: &str) -> (res: Option<u128>)
    ensures
        forall|bits: u128| res == Some(bits) <==> #[trigger] spells_uuid(s@, bits),
{
    s.parse::<uuid::Uuid>().ok().map(|id| id.as_u128())
}

/// `uuid::Uuid`'s `Display`. The claim: the text is the hyphenated form, in
/// lower case.
#[verifier::external_body]
fn format_bits(bits: u128) -> (res: String)
    ensures
        res@ == hyphenated_form(bits),
{
    uuid::Uuid::from_u128(bits).to_string()
}

impl Uuid {
    /// Reads a UUID in any of its spellings.
    pub fn parse(s: &str) -> (res: Option<Uuid>)
        ensures
            forall|id: Uuid| res == Some(id) <==> #[trigger] spells_uuid(s@, id.bits),
    {
        let res = match parse_bits(s) {
            Some(bits) => Some(Uuid { bits }),
            None => None,
        };
        proof {
            assert forall|id: Uuid| res == Some(id) <==> #[trigger] spells_uuid(s@, id.bits) by {
                if spells_uuid(s@, id.bits) {
                    assert(res == Some(Uuid { bits: id.bits }));
                }
            }
        }
        res
    }

    /// The hyphenated form, in lower case.
    pub fn to_text(&self) -> (res: String)
        ensures
            res@ == hyphenated_form(self.bits),
    {
        format_bits(self.bits)
    }
}

/// Text that `to_text` writes is read back as the same UUID.
pub proof fn law_uuid_text_reads_back(id: Uuid)
    ensures
        spells_uuid(hyphenated_form(id.bits), id.bits),
{
    let s = hyphenated_form(id.bits);
    assert forall|i: int| 0 <= i < s.len() implies #[trigger] lower_case(s)[i] == s[i] by {
        lemma_hyphenated_in_lower_case(id.bits, i);
    }
    assert(lower_case(s) =~= s);
}

proof fn lemma_hyphenated_in_lower_case(bits: u128, i: int)
    requires
        0 <= i < hyphenated_form(bits).len(),
    ensures
        !('A' <= hyphenated_form(bits)[i] && hyphenated_form(bits)[i] <= 'Z'),
{
    assert forall|k: int| 0 <= k < 32 implies !('A' <= #[trigger] simple_form(bits)[k]
        && simple_form(bits)[k] <= 'Z') by {
        let shift = (124 - 4 * k) as u128;
        assert((bits >> shift) & 0xf < 16) by (bit_vector);
    }
}

/// A text spells at most one UUID.
pub proof fn law_spelling_is_unique(s: Seq<char>, a: u128, b: u128)
    requires
        spells_uuid(s, a),
        spells_uuid(s, b),
    ensures
        a == b,
{
    reveal_strlit("urn:uuid:");
    let t = lower_case(s);
    assert(simple_form(a).len() == 32 && simple_form(b).len() == 32);
    assert(hyphenated_form(a).len() == 36 && hyphenated_form(b).len() == 36);
    if t == simple_form(a) {
        lemma_simple_form_is_unique(a, b);
    } else {
        assert(hyphenated_form(a) =~= hyphenated_form(b)) by {
            if t.len() == 38 {
                assert(t.subrange(1, 37) =~= hyphenated_form(a));
                assert(t.subrange(1, 37) =~= hyphenated_form(b));
            } else if t.len() == 45 {
                assert(t.subrange(9, 45) =~= hyphenated_form(a));
                assert(t.subrange(9, 45) =~= hyphenated_form(b));
            }
        }
        let h = hyphenated_form(a);
        let digits = h.subrange(0, 8) + h.subrange(9, 13) + h.subrange(14, 18) + h.subrange(19, 23)
            + h.subrange(24, 36);
        assert(digits =~= simple_form(a));
        assert(digits =~= simple_form(b));
        lemma_simple_form_is_unique(a, b);
    }
}

proof fn lemma_simple_form_is_unique(a: u128, b: u128)
    requires
        simple_form(a) == simple_form(b),
    ensures
        a == b,
{
    lemma_same_nibble(a, b, 0);
    lemma_same_nibble(a, b, 1);
    lemma_same_nibble(a, b, 2);
    lemma_same_nibble(a, b, 3);
    lemma_same_nibble(a, b, 4);
    lemma_same_nibble(a, b, 5);
    lemma_same_nibble(a, b, 6);
    lemma_same_nibble(a, b, 7);
    lemma_same_nibble(a, b, 8);
    lemma_same_nibble(a, b, 9);
    lemma_same_nibble(a, b, 10);
    lemma_same_nibble(a, b, 11);
    lemma_same_nibble(a, b, 12);
    lemma_same_nibble(a, b, 13);
    lemma_same_nibble(a, b, 14);
    lemma_same_nibble(a, b, 15);
    lemma_same_nibble(a, b, 16);
    lemma_same_nibble(a, b, 17);
    lemma_same_nibble(a, b, 18);
    lemma_same_nibble(a, b, 19);
    lemma_same_nibble(a, b, 20);
    lemma_same_nibble(a, b, 21);
    lemma_same_nibble(a, b, 22);
    lemma_same_nibble(a, b, 23);
    lemma_same_nibble(a, b, 24);
    lemma_same_nibble(a, b, 25);
    lemma_same_nibble(a, b, 26);
    lemma_same_nibble(a, b, 27);
    lemma_same_nibble(a, b, 28);
    lemma_same_nibble(a, b, 29);
    lemma_same_nibble(a, b, 30);
    lemma_same_nibble(a, b, 31);
    assert(a == b) by (bit_vector)
        requires
            (a >> 124) & 0xf == (b >> 124) & 0xf,
            (a >> 120) & 0xf == (b >> 120) & 0xf,
            (a >> 116) & 0xf == (b >> 116) & 0xf,
            (a >> 112) & 0xf == (b >> 112) & 0xf,
            (a >> 108) & 0xf == (b >> 108) & 0xf,
            (a >> 104) & 0xf == (b >> 104) & 0xf,
            (a >> 100) & 0xf == (b >> 100) & 0xf,
            (a >> 96) & 0xf == (b >> 96) & 0xf,
            (a >> 92) & 0xf == (b >> 92) & 0xf,
            (a >> 88) & 0xf == (b >> 88) & 0xf,
            (a >> 84) & 0xf == (b >> 84) & 0xf,
            (a >> 80) & 0xf == (b >> 80) & 0xf,
            (a >> 76) & 0xf == (b >> 76) & 0xf,
            (a >> 72) & 0xf == (b >> 72) & 0xf,
            (a >> 68) & 0xf == (b >> 68) & 0xf,
            (a >> 64) & 0xf == (b >> 64) & 0xf,
            (a >> 60) & 0xf == (b >> 60) & 0xf,
            (a >> 56) & 0xf == (b >> 56) & 0xf,
            (a >> 52) & 0xf == (b >> 52) & 0xf,
            (a >> 48) & 0xf == (b >> 48) & 0xf,
            (a >> 44) & 0xf == (b >> 44) & 0xf,
            (a >> 40) & 0xf == (b >> 40) & 0xf,
            (a >> 36) & 0xf == (b >> 36) & 0xf,
            (a >> 32) & 0xf == (b >> 32) & 0xf,
            (a >> 28) & 0xf == (b >> 28) & 0xf,
            (a >> 24) & 0xf == (b >> 24) & 0xf,
            (a >> 20) & 0xf == (b >> 20) & 0xf,
            (a >> 16) & 0xf == (b >> 16) & 0xf,
            (a >> 12) & 0xf == (b >> 12) & 0xf,
            (a >> 8) & 0xf == (b >> 8) & 0xf,
            (a >> 4) & 0xf == (b >> 4) & 0xf,
            (a >> 0) & 0xf == (b >> 0) & 0xf,
    ;
}

proof fn lemma_same_nibble(a: u128, b: u128, k: int)
    requires
        0 <= k < 32,
        simple_form(a) == simple_form(b),
    ensures
        (a >> ((124 - 4 * k) as u128)) & 0xf == (b >> ((124 - 4 * k) as u128)) & 0xf,
{
    let shift = (124 - 4 * k) as u128;
    assert((a >> shift) & 0xf < 16) by (bit_vector);
    assert((b >> shift) & 0xf < 16) by (bit_vector);
    assert(simple_form(a)[k] == digit_at(a, k));
    assert(simple_form(b)[k] == digit_at(b, k));
}


/// The view of a pseudonym is its text.
pub proof fn law_pseudonym_is_its_text(pseudo_id: PseudoId)
    ensures
        pseudo_id@ == pseudo_id.text@,
{
}

/// The case of the letters in the spelling of a UUID does not matter, and each of
/// the four forms is a spelling; there is no other.
pub proof fn law_uuid_has_four_forms(s: Seq<char>, bits: u128)
    ensures
        ({
            let t = Seq::new(
                s.len(),
                |i: int|
                    if 'A' <= s[i] && s[i] <= 'Z' {
                        (s[i] as int + 32) as char
                    } else {
                        s[i]
                    },
            );
            spells_uuid(s, bits) <==> (t == simple_form(bits) || t == hyphenated_form(bits) || t
                == seq!['{'] + hyphenated_form(bits) + seq!['}'] || t == "urn:uuid:"@
                + hyphenated_form(bits))
        }),
{
    let t = Seq::new(
        s.len(),
        |i: int|
            if 'A' <= s[i] && s[i] <= 'Z' {
                (s[i] as int + 32) as char
            } else {
                s[i]
            },
    );
    assert(lower_case(s) =~= t);
}

/// The `k`-th digit of a UUID, most significant first, stands in its hyphenated
/// form behind as many hyphens as there are group ends up to it.
pub proof fn law_hyphenated_form_shows_the_digits(bits: u128, k: int)
    requires
        0 <= k < 32,
    ensures
        ({
            let hyphens: int = if k < 8 {
                0
            } else if k < 12 {
                1
            } else if k < 16 {
                2
            } else if k < 20 {
                3
            } else {
                4
            };
            let digit = (bits >> ((124 - 4 * k) as u128)) & 0xf;
            &&& hyphenated_form(bits).len() == 36
            &&& hyphenated_form(bits)[k + hyphens] == (if digit < 10 {
                ('0' as int + digit) as char
            } else {
                ('a' as int + digit - 10) as char
            })
            &&& hyphenated_form(bits)[8] == '-'
            &&& hyphenated_form(bits)[13] == '-'
            &&& hyphenated_form(bits)[18] == '-'
            &&& hyphenated_form(bits)[23] == '-'
        }),
{
    assert(simple_form(bits)[k] == digit_at(bits, k));
}

} // verus!
