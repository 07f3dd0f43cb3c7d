//! Text helpers shared by the protocol conversions: trimming, decimal
//! rendering of integers, joining, and string comparison.

use vstd::prelude::*;
use vstd::string::StringSliceAdditionalSpecFns;

verus! {

// ── Specifications ──────────────────────────────────────────────────────────

/// Unicode `White_Space` property, the set `char::is_whitespace` tests.
pub open spec fn is_unicode_whitespace(c: char) -> bool {
    let u = c as u32;
    ||| 0x9 <= u <= 0xd
    ||| u == 0x20
    ||| u == 0x85
    ||| u == 0xa0
    ||| u == 0x1680
    ||| 0x2000 <= u <= 0x200a
    ||| u == 0x2028
    ||| u == 0x2029
    ||| u == 0x202f
    ||| u == 0x205f
    ||| u == 0x3000
}

/// `s` without its leading white space.
pub open spec fn spec_trim_start(s: Seq<char>) -> Seq<char>
    decreases s.len(),
{
    if s.len() > 0 && is_unicode_whitespace(s[0]) {
        spec_trim_start(s.drop_first())
    } else {
        s
    }
}

/// `s` without its trailing white space.
pub open spec fn spec_trim_end(s: Seq<char>) -> Seq<char>
    decreases s.len(),
{
    if s.len() > 0 && is_unicode_whitespace(s.last()) {
        spec_trim_end(s.drop_last())
    } else {
        s
    }
}

/// `s` without leading and trailing white space.
pub open spec fn spec_trim(s: Seq<char>) -> Seq<char> {
    spec_trim_end(spec_trim_start(s))
}

/// `s` without any trailing occurrences of `c`.
pub open spec fn spec_trim_end_char(s: Seq<char>, c: char) -> Seq<char>
    decreases s.len(),
{
    if s.len() > 0 && s.last() == c {
        spec_trim_end_char(s.drop_last(), c)
    } else {
        s
    }
}

/// The decimal digit character for `d` (`0 <= d < 10`).
pub open spec fn digit_char(d: int) -> char {
    if d == 0 {
        '0'
    } else if d == 1 {
        '1'
    } else if d == 2 {
        '2'
    } else if d == 3 {
        '3'
    } else if d == 4 {
        '4'
    } else if d == 5 {
        '5'
    } else if d == 6 {
        '6'
    } else if d == 7 {
        '7'
    } else if d == 8 {
        '8'
    } else {
        '9'
    }
}

/// Decimal digits of a natural number, most significant first, no leading zeros.
pub open spec fn spec_digits(n: nat) -> Seq<char>
    decreases n,
{
    if n < 10 {
        seq![digit_char(n as int)]
    } else {
        spec_digits(n / 10).push(digit_char((n % 10) as int))
    }
}

/// Decimal text of an integer, with a leading `-` when negative.
pub open spec fn spec_decimal(n: int) -> Seq<char> {
    if n < 0 {
        seq!['-'] + spec_digits((-n) as nat)
    } else {
        spec_digits(n as nat)
    }
}

/// The parts joined with `sep` between consecutive parts.
pub open spec fn spec_join(parts: Seq<Seq<char>>, sep: Seq<char>) -> Seq<char>
    decreases parts.len(),
{
    if parts.len() == 0 {
        Seq::empty()
    } else if parts.len() == 1 {
        parts[0]
    } else {
        spec_join(parts.drop_last(), sep) + sep + parts.last()
    }
}

/// Lexicographic order on character sequences, by code point.
pub open spec fn spec_text_less(a: Seq<char>, b: Seq<char>) -> bool
    decreases a.len(),
{
    if b.len() == 0 {
        false
    } else if a.len() == 0 {
        true
    } else if a[0] != b[0] {
        (a[0] as int) < (b[0] as int)
    } else {
        spec_text_less(a.drop_first(), b.drop_first())
    }
}

// ── std wrappers ────────────────────────────────────────────────────────────

/// `str::trim`: removes leading and trailing characters with the Unicode
/// `White_Space` property.
#[verifier::external_body]
pub(crate) fn trim_whitespace(s: &str) -> (r: String)
    ensures
        r@ == spec_trim(s@),
{
    s.trim().to_string()
}

/// `str::trim_end_matches` with a single character pattern: removes every
/// trailing occurrence of `c`.
#[verifier::external_body]
pub(crate) fn trim_end_char(s: &str, c: char) -> (r: String)
    ensures
        r@ == spec_trim_end_char(s@, c),
{
    s.trim_end_matches(c).to_string()
}

/// `String::push`: appends one character.
#[verifier::external_body]
pub(crate) fn push_char(s: &mut String, c: char)
    ensures
        final(s)@ == old(s)@.push(c),
{
    s.push(c);
}

/// `==` on `str`: equal when the character sequences are equal.
#[verifier::external_body]
pub(crate) fn text_eq(a: &str, b: &str) -> (r: bool)
    ensures
        r == (a@ == b@),
{
    a == b
}

/// `<` on `str`: the documented lexicographic order, which ranks code points
/// by their value.
#[verifier::external_body]
pub(crate) fn text_less(a: &str, b: &str) -> (r: bool)
    ensures
        r == spec_text_less(a@, b@),
{
    a < b
}

// ── Verified helpers ────────────────────────────────────────────────────────

/// The text `s` as an owned string.
pub fn owned(s: &str) -> (r: String)
    ensures
        r@ == s@,
{
    String::from_str(s)
}

/// `a` followed by `b`.
pub fn concat2(a: &str, b: &str) -> (r: String)
    ensures
        r@ == a@ + b@,
{
    let mut r = String::from_str(a);
    r.append(b);
    r
}

/// `a`, `b` and `c` one after the other.
pub fn concat3(a: &str, b: &str, c: &str) -> (r: String)
    ensures
        r@ == a@ + b@ + c@,
{
    let mut r = String::from_str(a);
    r.append(b);
    r.append(c);
    r
}

/// Decimal text of an unsigned integer, as `Display` writes it.
pub fn decimal_u64(n: u64) -> (r: String)
    ensures
        r@ == spec_digits(n as nat),
{
    // Collect the digits least significant first.
    let mut digits: Vec<char> = Vec::new();
    let mut m: u64 = n;
    let ghost mut rest: Seq<char> = Seq::empty();
    loop
        invariant_except_break
            spec_digits(n as nat) == spec_digits(m as nat) + rest,
            digits@ == rest.reverse(),
        ensures
            spec_digits(n as nat) == rest,
            digits@ == rest.reverse(),
        decreases m,
    {
        let d: u64 = m % 10;
        let c = digit_of(d);
        if m < 10 {
            digits.push(c);
            proof {
                let old_rest = rest;
                rest = seq![c] + old_rest;
                assert(spec_digits(m as nat) == seq![digit_char(m as int)]);
                assert(seq![c] + old_rest =~= spec_digits(m as nat) + old_rest);
                assert(digits@ =~= rest.reverse());
            }
            break;
        }
        digits.push(c);
        proof {
            let old_rest = rest;
            rest = seq![c] + old_rest;
            assert(spec_digits(m as nat) == spec_digits((m / 10) as nat).push(
                digit_char((m % 10) as int),
            ));
            assert(spec_digits(m as nat) + old_rest =~= spec_digits((m / 10) as nat) + rest);
            assert(digits@ =~= rest.reverse());
        }
        m = m / 10;
    }
    let mut r = String::new();
    let mut i: usize = digits.len();
    while i > 0
        invariant
            i <= digits@.len(),
            digits@ == rest.reverse(),
            spec_digits(n as nat) == rest,
            r@ =~= rest.subrange(0, (rest.len() - i) as int),
        decreases i,
    {
        i = i - 1;
        push_char(&mut r, digits[i]);
        assert(rest[(rest.len() - i - 1) as int] == digits@[i as int]);
    }
    assert(rest.subrange(0, rest.len() as int) =~= rest);
    r
}

fn digit_of(d: u64) -> (c: char)
    requires
        d < 10,
    ensures
        c == digit_char(d as int),
{
    if d == 0 {
        '0'
    } else if d == 1 {
        '1'
    } else if d == 2 {
        '2'
    } else if d == 3 {
        '3'
    } else if d == 4 {
        '4'
    } else if d == 5 {
        '5'
    } else if d == 6 {
        '6'
    } else if d == 7 {
        '7'
    } else if d == 8 {
        '8'
    } else {
        '9'
    }
}

/// Whether `c` is an ASCII decimal digit.
pub open spec fn is_digit(c: char) -> bool {
    '0' <= c && c <= '9'
}

/// Whether every character of `d` is a decimal digit.
pub open spec fn all_digits(d: Seq<char>) -> bool {
    forall|i: int| 0 <= i < d.len() ==> is_digit(#[trigger] d[i])
}

/// The value of a sequence of decimal digits (zero for none).
pub open spec fn spec_digits_value(d: Seq<char>) -> int
    decreases d.len(),
{
    if d.len() == 0 {
        0
    } else {
        spec_digits_value(d.drop_last()) * 10 + ((d.last() as int) - ('0' as int))
    }
}

/// The integer a decimal text denotes: one or more digits, with an optional
/// leading `-`.
pub open spec fn spec_decimal_value(t: Seq<char>) -> Option<int> {
    if t.len() > 0 && t[0] == '-' {
        if t.len() > 1 && all_digits(t.drop_first()) {
            Some(-spec_digits_value(t.drop_first()))
        } else {
            None
        }
    } else if t.len() > 0 && all_digits(t) {
        Some(spec_digits_value(t))
    } else {
        None
    }
}

/// The `i64` a decimal text denotes, when it denotes one in range.
pub open spec fn spec_i64_of_decimal(t: Seq<char>) -> Option<i64> {
    match spec_decimal_value(t) {
        Some(v) => if i64::MIN <= v <= i64::MAX {
            Some(v as i64)
        } else {
            None
        },
        None => None,
    }
}

proof fn lemma_digits_value_nonneg(d: Seq<char>)
    requires
        all_digits(d),
    ensures
        spec_digits_value(d) >= 0,
    decreases d.len(),
{
    if d.len() > 0 {
        assert(is_digit(d[d.len() - 1]));
        lemma_digits_value_nonneg(d.drop_last());
    }
}

/// The `i64` that the decimal text `t` denotes, if it denotes one in range.
pub fn i64_of_decimal(t: &str) -> (r: Option<i64>)
    ensures
        r == spec_i64_of_decimal(t@),
{
    broadcast use vstd::string::is_ascii_spec_bytes;

    if !t.is_ascii() {
        proof {
            let k = choose|k: int| 0 <= k < t@.len() && !('\0' <= #[trigger] t@[k] <= '\u{7f}');
            assert(!is_digit(t@[k]));
            if t@.len() > 0 && t@[0] == '-' {
                assert(k > 0);
                assert(t@.drop_first()[k - 1] == t@[k]);
            }
        }
        return None;
    }
    let bytes = t.as_bytes();
    let n = bytes.len();
    assert(bytes@.len() == t@.len());
    if n == 0 {
        return None;
    }
    let neg = bytes[0] == 45u8;
    assert(neg == (t@[0] == '-'));
    let start: usize = if neg { 1 } else { 0 };
    if start == n {
        return None;
    }
    let ghost body = t@.subrange(start as int, n as int);
    proof {
        if neg {
            assert(body =~= t@.drop_first());
        } else {
            assert(body =~= t@);
        }
    }
    let cap: u128 = 100_000_000_000_000_000_000;
    let mut acc: u128 = 0;
    let mut big = false;
    let mut i: usize = start;
    while i < n
        invariant
            start <= i <= n,
            n == bytes@.len(),
            n == t@.len(),
            vstd::string::is_ascii(t),
            bytes@ == t.spec_bytes(),
            body == t@.subrange(start as int, n as int),
            neg == (t@[0] == '-'),
            neg ==> start == 1 && body == t@.drop_first(),
            !neg ==> start == 0 && body == t@,
            all_digits(t@.subrange(start as int, i as int)),
            !big ==> acc == spec_digits_value(t@.subrange(start as int, i as int)) && acc <= cap * 10 + 9,
            big ==> spec_digits_value(t@.subrange(start as int, i as int)) > cap,
            cap == 100_000_000_000_000_000_000,
        decreases n - i,
    {
        let b = bytes[i];
        assert(b == t@[i as int] as u8);
        if b < 48u8 || b > 57u8 {
            proof {
                let c = t@[i as int];
                assert('\0' <= c <= '\u{7f}');
                assert(!is_digit(c));
                assert(body[i - start] == c);
                assert(!all_digits(body));
            }
            return None;
        }
        let ghost pre = t@.subrange(start as int, i as int);
        let ghost post = t@.subrange(start as int, i + 1);
        assert(post.drop_last() =~= pre);
        assert(post.last() == t@[i as int]);
        assert(is_digit(t@[i as int]));
        assert(all_digits(post)) by {
            assert forall|k: int| 0 <= k < post.len() implies is_digit(#[trigger] post[k]) by {
                if k < pre.len() {
                    assert(post[k] == pre[k]);
                }
            }
        }
        let d = (b - 48u8) as u128;
        assert(d == (t@[i as int] as int) - ('0' as int));
        if big {
            proof {
                lemma_digits_value_nonneg(pre);
            }
        } else if acc > cap {
            big = true;
        } else {
            acc = acc * 10 + d;
        }
        i = i + 1;
    }
    assert(t@.subrange(start as int, n as int) == body);
    if big {
        return None;
    }
    if neg {
        if acc <= 9_223_372_036_854_775_808u128 {
            let v: i128 = 0i128 - (acc as i128);
            Some(v as i64)
        } else {
            None
        }
    } else if acc <= 9_223_372_036_854_775_807u128 {
        Some(acc as i64)
    } else {
        None
    }
}

/// Decimal text of a signed integer, as `Display` writes it.
pub fn decimal_i64(n: i64) -> (r: String)
    ensures
        r@ == spec_decimal(n as int),
{
    if n < 0 {
        let mag: u64 = if n == i64::MIN {
            9223372036854775808u64
        } else {
            (-n) as u64
        };
        let digits = decimal_u64(mag);
        let mut r = String::new();
        push_char(&mut r, '-');
        r.append(digits.as_str());
        assert(r@ =~= seq!['-'] + spec_digits((-n) as nat));
        r
    } else {
        decimal_u64(n as u64)
    }
}

/// The parts joined with `sep` between consecutive parts.
pub fn join(parts: &Vec<String>, sep: &str) -> (r: String)
    ensures
        r@ == spec_join(parts@.map_values(|p: String| p@), sep@),
{
    let ghost views = parts@.map_values(|p: String| p@);
    let mut r = String::new();
    let mut i: usize = 0;
    while i < parts.len()
        invariant
            i <= parts@.len(),
            views == parts@.map_values(|p: String| p@),
            r@ == spec_join(views.take(i as int), sep@),
        decreases parts@.len() - i,
    {
        if i != 0 {
            r.append(sep);
        }
        r.append(parts[i].as_str());
        proof {
            assert(views.take((i + 1) as int).drop_last() =~= views.take(i as int));
            assert(views.take((i + 1) as int).last() == parts@[i as int]@);
            if i == 0 {
                assert(views.take(1).len() == 1);
            }
        }
        i = i + 1;
    }
    assert(views.take(parts@.len() as int) =~= views);
    r
}

// ── Order on text ───────────────────────────────────────────────────────────

/// No text is below itself.
pub proof fn lemma_text_less_irreflexive(a: Seq<char>)
    ensures
        !spec_text_less(a, a),
    decreases a.len(),
{
    if a.len() > 0 {
        lemma_text_less_irreflexive(a.drop_first());
    }
}

/// Of two different texts, one is below the other.
pub proof fn lemma_text_less_total(a: Seq<char>, b: Seq<char>)
    ensures
        a == b || spec_text_less(a, b) || spec_text_less(b, a),
    decreases a.len(),
{
    if a.len() > 0 && b.len() > 0 && a[0] == b[0] {
        lemma_text_less_total(a.drop_first(), b.drop_first());
        if a.drop_first() == b.drop_first() {
            assert(a =~= seq![a[0]] + a.drop_first());
            assert(b =~= seq![b[0]] + b.drop_first());
            assert(a =~= b);
        }
    } else if a.len() == 0 && b.len() == 0 {
        assert(a =~= b);
    } else if a.len() > 0 && b.len() > 0 {
        assert((a[0] as int) != (b[0] as int));
    }
}

/// The order is asymmetric.
pub proof fn lemma_text_less_asymmetric(a: Seq<char>, b: Seq<char>)
    ensures
        !(spec_text_less(a, b) && spec_text_less(b, a)),
    decreases a.len(),
{
    if a.len() > 0 && b.len() > 0 && a[0] == b[0] {
        lemma_text_less_asymmetric(a.drop_first(), b.drop_first());
    }
}

/// The order is transitive.
pub proof fn lemma_text_less_transitive(a: Seq<char>, b: Seq<char>, c: Seq<char>)
    requires
        spec_text_less(a, b),
        spec_text_less(b, c),
    ensures
        spec_text_less(a, c),
    decreases a.len(),
{
    if a.len() > 0 && b.len() > 0 && c.len() > 0 && a[0] == b[0] && b[0] == c[0] {
        lemma_text_less_transitive(a.drop_first(), b.drop_first(), c.drop_first());
    }
}

/// Whether the texts are in ascending order.
pub open spec fn texts_sorted(s: Seq<String>) -> bool {
    forall|i: int, j: int| 0 <= i < j < s.len() ==> !spec_text_less(#[trigger] s[j]@, #[trigger] s[i]@)
}

/// The texts in ascending order (by code point, as `str`'s `Ord` orders them).
pub fn sort_texts(texts: Vec<String>) -> (r: Vec<String>)
    ensures
        texts_sorted(r@),
        r@.to_multiset() == texts@.to_multiset(),
{
    broadcast use vstd::seq_lib::group_to_multiset_ensures;

    let mut input = texts;
    let mut out: Vec<String> = Vec::new();
    while input.len() > 0
        invariant
            texts_sorted(out@),
            out@.to_multiset().add(input@.to_multiset()) == texts@.to_multiset(),
        decreases input@.len(),
    {
        let ghost before_in = input@;
        let x = input.pop().unwrap();
        assert(before_in =~= input@.push(x));
        // Find the first position whose element is above `x`.
        let mut k: usize = 0;
        while k < out.len()
            invariant
                k <= out@.len(),
                forall|q: int| 0 <= q < k ==> !spec_text_less(x@, #[trigger] out@[q]@),
            ensures
                k <= out@.len(),
                forall|q: int| 0 <= q < k ==> !spec_text_less(x@, #[trigger] out@[q]@),
                k == out@.len() || spec_text_less(x@, out@[k as int]@),
            decreases out@.len() - k,
        {
            if text_less(x.as_str(), out[k].as_str()) {
                break;
            }
            k = k + 1;
        }
        let ghost before = out@;
        proof {
            // Everything from `k` on is above `x`.
            assert forall|q: int| k <= q < before.len() implies spec_text_less(
                x@,
                #[trigger] before[q]@,
            ) by {
                assert(spec_text_less(x@, before[k as int]@));
                if q > k {
                    lemma_text_less_total(before[k as int]@, before[q]@);
                    if spec_text_less(before[k as int]@, before[q]@) {
                        lemma_text_less_transitive(x@, before[k as int]@, before[q]@);
                    }
                }
            }
        }
        out.insert(k, x);
        proof {
            assert(out@ == before.insert(k as int, x));
            assert forall|i: int, j: int| 0 <= i < j < out@.len() implies !spec_text_less(
                #[trigger] out@[j]@,
                #[trigger] out@[i]@,
            ) by {
                if i == k {
                    assert(out@[j] == before[j - 1]);
                    lemma_text_less_asymmetric(x@, before[j - 1]@);
                } else if j == k {
                    assert(out@[i] == before[i]);
                } else if i < k && j > k {
                    assert(out@[i] == before[i]);
                    assert(out@[j] == before[j - 1]);
                } else if j < k {
                    assert(out@[i] == before[i]);
                    assert(out@[j] == before[j]);
                } else {
                    assert(out@[i] == before[i - 1]);
                    assert(out@[j] == before[j - 1]);
                }
            }
            assert(out@.remove(k as int) =~= before);
            assert(out@[k as int] == x);
            assert(out@.contains(x));
            out@.to_multiset_ensures();
            assert(out@.to_multiset().count(x) > 0);
            assert(out@.to_multiset() =~= before.to_multiset().insert(x));
            input@.to_multiset_ensures();
            assert(before_in.to_multiset() =~= input@.to_multiset().insert(x));
            assert(out@.to_multiset().add(input@.to_multiset()) =~= before.to_multiset().add(
                before_in.to_multiset(),
            ));
        }
    }
    out
}

} // verus!
