//! Fresh identifiers for tasks, messages, providers and models.

use vstd::prelude::*;

use crate::text::{push_char, text_eq};

verus! {

/// Lower-case hexadecimal digit.
pub open spec fn is_lower_hex(c: char) -> bool {
    ('0' <= c && c <= '9') || ('a' <= c && c <= 'f')
}

/// Text of a random (version 4) UUID in its hyphenated lower-case form,
/// `xxxxxxxx-xxxx-4xxx-Nxxx-xxxxxxxxxxxx` with `N` one of `8`, `9`, `a`, `b`.
pub open spec fn is_uuid_v4_text(s: Seq<char>) -> bool {
    &&& s.len() == 36
    &&& forall|i: int|
        0 <= i < 36 ==> if i == 8 || i == 13 || i == 18 || i == 23 {
            s[i] == '-'
        } else {
            is_lower_hex(#[trigger] s[i])
        }
    &&& s[14] == '4'
    &&& (s[19] == '8' || s[19] == '9' || s[19] == 'a' || s[19] == 'b')
}

/// `uuid::Uuid::new_v4().to_string()`: a random version 4 UUID in its
/// hyphenated lower-case text form. Nothing is said of which UUID comes back.
#[verifier::external_body]
pub(crate) fn new_uuid_text() -> (r: String)
    ensures
        is_uuid_v4_text(r@),
{
    uuid::Uuid::new_v4().to_string()
}

// ── Distinct identifiers ────────────────────────────────────────────────────

/// Whether the texts are pairwise distinct.
pub open spec fn texts_distinct(ts: Seq<Seq<char>>) -> bool {
    forall|i: int, j: int| 0 <= i < j < ts.len() ==> ts[i] != ts[j]
}

/// The four bits of `k` starting at bit `s`.
pub open spec fn nib(k: u64, s: u64) -> u64 {
    (k >> s) & 15u64
}

/// Character `p` of the stand-in id for `(kind, k)`: the sixteen hex digits
/// of `k` (most significant first) spread over the free positions of the
/// UUID form, and `kind` after them.
pub open spec fn stand_in_char(kind: u64, k: u64, p: int) -> char {
    if p == 8 || p == 13 || p == 18 || p == 23 {
        '-'
    } else if p == 14 {
        '4'
    } else if p == 19 {
        '8'
    } else if p == 15 {
        crate::json::hex_digit_char(nib(k, 60) as int)
    } else if p == 16 {
        crate::json::hex_digit_char(nib(k, 56) as int)
    } else if p == 17 {
        crate::json::hex_digit_char(nib(k, 52) as int)
    } else if p == 20 {
        crate::json::hex_digit_char(nib(k, 48) as int)
    } else if p == 21 {
        crate::json::hex_digit_char(nib(k, 44) as int)
    } else if p == 22 {
        crate::json::hex_digit_char(nib(k, 40) as int)
    } else if 24 <= p <= 33 {
        crate::json::hex_digit_char(nib(k, (4 * (33 - p)) as u64) as int)
    } else if p == 34 {
        crate::json::hex_digit_char(kind as int)
    } else {
        '0'
    }
}

/// A version 4 UUID text determined by `(kind, k)`, used in place of random
/// ids when random draws collide.
pub open spec fn stand_in_id(kind: u64, k: u64) -> Seq<char> {
    Seq::new(36, |p: int| stand_in_char(kind, k, p))
}

proof fn lemma_nib_small(k: u64, s: u64)
    ensures
        nib(k, s) < 16,
{
    assert((k >> s) & 15u64 < 16) by (bit_vector);
}

proof fn lemma_hex_injective(x: int, y: int)
    requires
        0 <= x < 16,
        0 <= y < 16,
        crate::json::hex_digit_char(x) == crate::json::hex_digit_char(y),
    ensures
        x == y,
{
}

proof fn lemma_nibbles_determine(a: u64, b: u64)
    requires
        nib(a, 0) == nib(b, 0),
        nib(a, 4) == nib(b, 4),
        nib(a, 8) == nib(b, 8),
        nib(a, 12) == nib(b, 12),
        nib(a, 16) == nib(b, 16),
        nib(a, 20) == nib(b, 20),
        nib(a, 24) == nib(b, 24),
        nib(a, 28) == nib(b, 28),
        nib(a, 32) == nib(b, 32),
        nib(a, 36) == nib(b, 36),
        nib(a, 40) == nib(b, 40),
        nib(a, 44) == nib(b, 44),
        nib(a, 48) == nib(b, 48),
        nib(a, 52) == nib(b, 52),
        nib(a, 56) == nib(b, 56),
        nib(a, 60) == nib(b, 60),
    ensures
        a == b,
{
    assert(a == b) by (bit_vector)
        requires
            (a >> 0u64) & 15u64 == (b >> 0u64) & 15u64,
            (a >> 4u64) & 15u64 == (b >> 4u64) & 15u64,
            (a >> 8u64) & 15u64 == (b >> 8u64) & 15u64,
            (a >> 12u64) & 15u64 == (b >> 12u64) & 15u64,
            (a >> 16u64) & 15u64 == (b >> 16u64) & 15u64,
            (a >> 20u64) & 15u64 == (b >> 20u64) & 15u64,
            (a >> 24u64) & 15u64 == (b >> 24u64) & 15u64,
            (a >> 28u64) & 15u64 == (b >> 28u64) & 15u64,
            (a >> 32u64) & 15u64 == (b >> 32u64) & 15u64,
            (a >> 36u64) & 15u64 == (b >> 36u64) & 15u64,
            (a >> 40u64) & 15u64 == (b >> 40u64) & 15u64,
            (a >> 44u64) & 15u64 == (b >> 44u64) & 15u64,
            (a >> 48u64) & 15u64 == (b >> 48u64) & 15u64,
            (a >> 52u64) & 15u64 == (b >> 52u64) & 15u64,
            (a >> 56u64) & 15u64 == (b >> 56u64) & 15u64,
            (a >> 60u64) & 15u64 == (b >> 60u64) & 15u64,
    ;
}

/// Stand-in ids are version 4 UUID texts, and different `(kind, k)` give
/// different ids.
pub proof fn lemma_stand_in_ids(kind1: u64, k1: u64, kind2: u64, k2: u64)
    requires
        kind1 < 16,
        kind2 < 16,
    ensures
        is_uuid_v4_text(stand_in_id(kind1, k1)),
        stand_in_id(kind1, k1) == stand_in_id(kind2, k2) ==> kind1 == kind2 && k1 == k2,
{
    let s1 = stand_in_id(kind1, k1);
    let s2 = stand_in_id(kind2, k2);
    assert forall|sh: u64| #![auto] nib(k1, sh) < 16 && nib(k2, sh) < 16 by {
        lemma_nib_small(k1, sh);
        lemma_nib_small(k2, sh);
    }
    assert forall|i: int| 0 <= i < 36 implies if i == 8 || i == 13 || i == 18 || i == 23 {
        s1[i] == '-'
    } else {
        is_lower_hex(#[trigger] s1[i])
    } by {
        if 24 <= i <= 33 {
            lemma_nib_small(k1, (4 * (33 - i)) as u64);
        }
    }
    if s1 == s2 {
        assert(s1[34] == s2[34]);
        lemma_hex_injective(kind1 as int, kind2 as int);
        assert(s1[15] == s2[15]);
        lemma_hex_injective(nib(k1, 60) as int, nib(k2, 60) as int);
        assert(s1[16] == s2[16]);
        lemma_hex_injective(nib(k1, 56) as int, nib(k2, 56) as int);
        assert(s1[17] == s2[17]);
        lemma_hex_injective(nib(k1, 52) as int, nib(k2, 52) as int);
        assert(s1[20] == s2[20]);
        lemma_hex_injective(nib(k1, 48) as int, nib(k2, 48) as int);
        assert(s1[21] == s2[21]);
        lemma_hex_injective(nib(k1, 44) as int, nib(k2, 44) as int);
        assert(s1[22] == s2[22]);
        lemma_hex_injective(nib(k1, 40) as int, nib(k2, 40) as int);
        assert(s1[24] == s2[24]);
        lemma_hex_injective(nib(k1, 36) as int, nib(k2, 36) as int);
        assert(s1[25] == s2[25]);
        lemma_hex_injective(nib(k1, 32) as int, nib(k2, 32) as int);
        assert(s1[26] == s2[26]);
        lemma_hex_injective(nib(k1, 28) as int, nib(k2, 28) as int);
        assert(s1[27] == s2[27]);
        lemma_hex_injective(nib(k1, 24) as int, nib(k2, 24) as int);
        assert(s1[28] == s2[28]);
        lemma_hex_injective(nib(k1, 20) as int, nib(k2, 20) as int);
        assert(s1[29] == s2[29]);
        lemma_hex_injective(nib(k1, 16) as int, nib(k2, 16) as int);
        assert(s1[30] == s2[30]);
        lemma_hex_injective(nib(k1, 12) as int, nib(k2, 12) as int);
        assert(s1[31] == s2[31]);
        lemma_hex_injective(nib(k1, 8) as int, nib(k2, 8) as int);
        assert(s1[32] == s2[32]);
        lemma_hex_injective(nib(k1, 4) as int, nib(k2, 4) as int);
        assert(s1[33] == s2[33]);
        lemma_hex_injective(nib(k1, 0) as int, nib(k2, 0) as int);
        lemma_nibbles_determine(k1, k2);
    }
}

fn hex_of(d: u64) -> (c: char)
    requires
        d < 16,
    ensures
        c == crate::json::hex_digit_char(d as int),
{
    if d == 0 { '0' } else if d == 1 { '1' } else if d == 2 { '2' } else if d == 3 { '3' }
    else if d == 4 { '4' } else if d == 5 { '5' } else if d == 6 { '6' } else if d == 7 { '7' }
    else if d == 8 { '8' } else if d == 9 { '9' } else if d == 10 { 'a' } else if d == 11 { 'b' }
    else if d == 12 { 'c' } else if d == 13 { 'd' } else if d == 14 { 'e' } else { 'f' }
}

fn nibble_char(k: u64, s: u64) -> (c: char)
    requires
        s < 64,
    ensures
        c == crate::json::hex_digit_char(nib(k, s) as int),
{
    proof {
        lemma_nib_small(k, s);
    }
    hex_of((k >> s) & 15u64)
}

/// The stand-in id for `(kind, k)`.
pub fn stand_in_id_text(kind: u64, k: u64) -> (r: String)
    requires
        kind < 16,
    ensures
        r@ == stand_in_id(kind, k),
{
    let mut r = String::new();
    let mut p: usize = 0;
    while p < 36
        invariant
            p <= 36,
            kind < 16,
            r@ =~= Seq::new(p as nat, |q: int| stand_in_char(kind, k, q)),
        decreases 36 - p,
    {
        let c = if p == 8 || p == 13 || p == 18 || p == 23 {
            '-'
        } else if p == 14 {
            '4'
        } else if p == 19 {
            '8'
        } else if p == 15 {
            nibble_char(k, 60)
        } else if p == 16 {
            nibble_char(k, 56)
        } else if p == 17 {
            nibble_char(k, 52)
        } else if p == 20 {
            nibble_char(k, 48)
        } else if p == 21 {
            nibble_char(k, 44)
        } else if p == 22 {
            nibble_char(k, 40)
        } else if 24 <= p && p <= 33 {
            nibble_char(k, (4 * (33 - p)) as u64)
        } else if p == 34 {
            hex_of(kind)
        } else {
            '0'
        };
        assert(c == stand_in_char(kind, k, p as int));
        push_char(&mut r, c);
        p = p + 1;
    }
    r
}

/// Whether the texts are pairwise distinct.
pub fn texts_all_distinct(v: &Vec<String>) -> (r: bool)
    ensures
        r == texts_distinct(v.deep_view()),
{
    let ghost ts = v.deep_view();
    let mut i: usize = 0;
    while i < v.len()
        invariant
            i <= v@.len(),
            ts == v.deep_view(),
            ts.len() == v@.len(),
            forall|a: int, b: int| 0 <= a < i && a < b < ts.len() ==> ts[a] != ts[b],
        decreases v@.len() - i,
    {
        let mut j: usize = i + 1;
        while j < v.len()
            invariant
                i < v@.len(),
                i + 1 <= j <= v@.len(),
                ts == v.deep_view(),
                ts.len() == v@.len(),
                forall|a: int, b: int| 0 <= a < i && a < b < ts.len() ==> ts[a] != ts[b],
                forall|b: int| i < b < j ==> ts[i as int] != ts[b],
            decreases v@.len() - j,
        {
            assert(ts[i as int] == v@[i as int]@ && ts[j as int] == v@[j as int]@);
            if text_eq(v[i].as_str(), v[j].as_str()) {
                return false;
            }
            j = j + 1;
        }
        i = i + 1;
    }
    true
}

} // verus!
