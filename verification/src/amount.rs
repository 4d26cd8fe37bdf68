//! Fixed-point money amounts.
//!
//! An amount is a count of hundredths of the currency unit, held in a `u64`.
//! The form edits amounts as free text; [`parse_amount`] reads that text at
//! submit time and substitutes `0` for anything that is not a plain
//! non-negative decimal — a deliberate default, not a validation gate.
//! [`format_cents`] renders an amount back as text with exactly two fraction
//! digits, and [`lemma_format_parse_round_trip`] shows that parsing such text
//! recovers the amount.

use vstd::prelude::*;

verus! {

/// Whitespace that is trimmed from amount text before parsing.
pub open spec fn is_ws(c: char) -> bool {
    c == ' ' || c == '\t' || c == '\n' || c == '\r'
}

/// A decimal digit character.
pub open spec fn is_digit(c: char) -> bool {
    '0' <= c && c <= '9'
}

/// The numeric value of a digit character.
pub open spec fn digit_of(c: char) -> nat {
    (c as nat - '0' as nat) as nat
}

/// The digit character for a value below ten.
pub open spec fn digit_char(d: nat) -> char {
    if d == 0 { '0' }
    else if d == 1 { '1' }
    else if d == 2 { '2' }
    else if d == 3 { '3' }
    else if d == 4 { '4' }
    else if d == 5 { '5' }
    else if d == 6 { '6' }
    else if d == 7 { '7' }
    else if d == 8 { '8' }
    else { '9' }
}

/// The text with its leading whitespace removed.
pub open spec fn trim_front(s: Seq<char>) -> Seq<char>
    decreases s.len(),
{
    if s.len() > 0 && is_ws(s[0]) {
        trim_front(s.subrange(1, s.len() as int))
    } else {
        s
    }
}

/// The text with its trailing whitespace removed.
pub open spec fn trim_back(s: Seq<char>) -> Seq<char>
    decreases s.len(),
{
    if s.len() > 0 && is_ws(s.last()) {
        trim_back(s.drop_last())
    } else {
        s
    }
}

/// The text with whitespace removed from both ends.
pub open spec fn trimmed(s: Seq<char>) -> Seq<char> {
    trim_back(trim_front(s))
}

/// The value of a string of digit characters, most significant first.
pub open spec fn digits_val(s: Seq<char>) -> nat
    decreases s.len(),
{
    if s.len() == 0 {
        0
    } else {
        digits_val(s.drop_last()) * 10 + digit_of(s.last())
    }
}

/// How many `'.'` characters the text holds.
pub open spec fn count_dots(s: Seq<char>) -> nat
    decreases s.len(),
{
    if s.len() == 0 {
        0
    } else {
        count_dots(s.drop_last()) + (if s.last() == '.' { 1nat } else { 0nat })
    }
}

/// Every character is a digit or a decimal point.
pub open spec fn all_amount_chars(s: Seq<char>) -> bool {
    forall|i: int| 0 <= i < s.len() ==> is_digit(s[i]) || s[i] == '.'
}

/// At least one character is a digit.
pub open spec fn has_digit(s: Seq<char>) -> bool {
    exists|i: int| 0 <= i < s.len() && is_digit(s[i])
}

/// Trimmed amount text is well-formed: non-empty, only digits and at most
/// one decimal point, and at least one digit.
pub open spec fn valid_amount_text(t: Seq<char>) -> bool {
    &&& t.len() > 0
    &&& all_amount_chars(t)
    &&& count_dots(t) <= 1
    &&& has_digit(t)
}

/// The digits before the first decimal point (the whole text if none).
pub open spec fn before_dot(t: Seq<char>) -> Seq<char>
    decreases t.len(),
{
    if t.len() == 0 {
        Seq::empty()
    } else if t[0] == '.' {
        Seq::empty()
    } else {
        seq![t[0]] + before_dot(t.subrange(1, t.len() as int))
    }
}

/// The characters after the first decimal point (empty if none).
pub open spec fn after_dot(t: Seq<char>) -> Seq<char>
    decreases t.len(),
{
    if t.len() == 0 {
        Seq::empty()
    } else if t[0] == '.' {
        t.subrange(1, t.len() as int)
    } else {
        after_dot(t.subrange(1, t.len() as int))
    }
}

/// The value in hundredths contributed by the fraction text: only its first
/// two digits count, missing digits read as zero.
pub open spec fn frac_hundredths(f: Seq<char>) -> nat {
    if f.len() == 0 {
        0
    } else if f.len() == 1 {
        digit_of(f[0]) * 10
    } else {
        digit_of(f[0]) * 10 + digit_of(f[1])
    }
}

/// The amount, in hundredths, that well-formed trimmed text denotes.
pub open spec fn cents_of_text(t: Seq<char>) -> nat {
    digits_val(before_dot(t)) * 100 + frac_hundredths(after_dot(t))
}

/// What [`parse_amount`] returns: the denoted amount when the trimmed text
/// is a plain non-negative decimal whose value fits a `u64`, and `0`
/// otherwise.
pub open spec fn spec_parse_amount(s: Seq<char>) -> u64 {
    let t = trimmed(s);
    if valid_amount_text(t) && cents_of_text(t) <= u64::MAX {
        cents_of_text(t) as u64
    } else {
        0
    }
}

/// A text with a decimal point somewhere counts at least one.
pub proof fn lemma_count_dots_pos(t: Seq<char>, p: int)
    requires
        0 <= p < t.len(),
        t[p] == '.',
    ensures
        count_dots(t) >= 1,
    decreases t.len(),
{
    if p == t.len() - 1 {
    } else {
        lemma_count_dots_pos(t.drop_last(), p);
    }
}

/// A text with decimal points at two distinct places counts at least two.
pub proof fn lemma_count_dots_two(t: Seq<char>, p1: int, p2: int)
    requires
        0 <= p1 < p2 < t.len(),
        t[p1] == '.',
        t[p2] == '.',
    ensures
        count_dots(t) >= 2,
    decreases t.len(),
{
    if p2 == t.len() - 1 {
        lemma_count_dots_pos(t.drop_last(), p1);
    } else {
        lemma_count_dots_two(t.drop_last(), p1, p2);
    }
}

/// A text without a decimal point counts none.
pub proof fn lemma_count_dots_none(t: Seq<char>)
    requires
        forall|j: int| 0 <= j < t.len() ==> t[j] != '.',
    ensures
        count_dots(t) == 0,
    decreases t.len(),
{
    if t.len() > 0 {
        lemma_count_dots_none(t.drop_last());
    }
}

/// A text whose only decimal point is at `p` counts exactly one.
pub proof fn lemma_count_dots_single(t: Seq<char>, p: int)
    requires
        0 <= p < t.len(),
        t[p] == '.',
        forall|j: int| 0 <= j < t.len() && j != p ==> t[j] != '.',
    ensures
        count_dots(t) == 1,
    decreases t.len(),
{
    if p == t.len() - 1 {
        lemma_count_dots_none(t.drop_last());
    } else {
        lemma_count_dots_single(t.drop_last(), p);
    }
}

/// When the characters before `d` are not decimal points and `d` (if inside
/// the text) holds one, the integer part is the prefix before `d` and the
/// fraction is the suffix after it.
pub proof fn lemma_before_after_split(t: Seq<char>, d: int)
    requires
        0 <= d <= t.len(),
        forall|j: int| 0 <= j < d ==> t[j] != '.',
        d < t.len() ==> t[d] == '.',
    ensures
        before_dot(t) == t.subrange(0, d),
        after_dot(t) == if d < t.len() {
            t.subrange(d + 1, t.len() as int)
        } else {
            Seq::<char>::empty()
        },
    decreases t.len(),
{
    if t.len() == 0 {
        assert(before_dot(t) =~= t.subrange(0, d));
    } else if d == 0 {
        assert(before_dot(t) =~= t.subrange(0, 0));
    } else {
        let rest = t.subrange(1, t.len() as int);
        lemma_before_after_split(rest, d - 1);
        assert(rest.subrange(0, d - 1) =~= t.subrange(1, d));
        assert(before_dot(t) == seq![t[0]] + rest.subrange(0, d - 1));
        assert(seq![t[0]] + t.subrange(1, d) =~= t.subrange(0, d));
        if d < t.len() {
            assert(rest.subrange(d, rest.len() as int) =~= t.subrange(d + 1, t.len() as int));
        }
    }
}

/// Whether the character is whitespace that trimming removes.
pub fn is_ws_char(c: char) -> (r: bool)
    ensures
        r == is_ws(c),
{
    c == ' ' || c == '\t' || c == '\n' || c == '\r'
}

/// Whether the character is a decimal digit.
pub fn is_digit_char(c: char) -> (r: bool)
    ensures
        r == is_digit(c),
{
    '0' <= c && c <= '9'
}

/// The numeric value of a digit character.
pub fn char_to_digit(c: char) -> (r: u64)
    requires
        is_digit(c),
    ensures
        r == digit_of(c),
        r <= 9,
{
    if c == '0' { 0 }
    else if c == '1' { 1 }
    else if c == '2' { 2 }
    else if c == '3' { 3 }
    else if c == '4' { 4 }
    else if c == '5' { 5 }
    else if c == '6' { 6 }
    else if c == '7' { 7 }
    else if c == '8' { 8 }
    else { 9 }
}

/// The digit character for a value below ten.
pub fn digit_to_char(d: u64) -> (r: char)
    requires
        d < 10,
    ensures
        r == digit_char(d as nat),
{
    if d == 0 { '0' }
    else if d == 1 { '1' }
    else if d == 2 { '2' }
    else if d == 3 { '3' }
    else if d == 4 { '4' }
    else if d == 5 { '5' }
    else if d == 6 { '6' }
    else if d == 7 { '7' }
    else if d == 8 { '8' }
    else { '9' }
}

/// Read amount text as a count of hundredths. Leading and trailing
/// whitespace is ignored; text that is not a plain non-negative decimal
/// (or whose value exceeds `u64::MAX` hundredths) yields `0`, the
/// documented fallback of the submit step.
pub fn parse_amount(s: &str) -> (r: u64)
    ensures
        r == spec_parse_amount(s@),
{
    let n = s.unicode_len();
    proof {
        assert(s@.subrange(0, n as int) =~= s@);
    }
    // Skip leading whitespace.
    let mut lo: usize = 0;
    while lo < n && is_ws_char(s.get_char(lo))
        invariant
            lo <= n,
            n == s@.len(),
            trim_front(s@) == trim_front(s@.subrange(lo as int, n as int)),
        decreases n - lo,
    {
        proof {
            let t = s@.subrange(lo as int, n as int);
            assert(t.subrange(1, t.len() as int) =~= s@.subrange(lo as int + 1, n as int));
        }
        lo += 1;
    }
    if lo == n {
        proof {
            assert(s@.subrange(lo as int, n as int) =~= Seq::<char>::empty());
            assert(trimmed(s@) =~= Seq::<char>::empty());
        }
        return 0;
    }
    // Skip trailing whitespace.
    let mut hi: usize = n;
    while hi > lo && is_ws_char(s.get_char(hi - 1))
        invariant
            lo < hi <= n,
            n == s@.len(),
            !is_ws(s@[lo as int]),
            trim_front(s@) == s@.subrange(lo as int, n as int),
            trim_back(s@.subrange(lo as int, n as int)) == trim_back(
                s@.subrange(lo as int, hi as int),
            ),
        decreases hi,
    {
        proof {
            let t = s@.subrange(lo as int, hi as int);
            assert(t.drop_last() =~= s@.subrange(lo as int, hi as int - 1));
            if hi - 1 == lo {
                assert(false);
            }
        }
        hi -= 1;
    }
    let ghost t = s@.subrange(lo as int, hi as int);
    proof {
        assert(trimmed(s@) == t);
        assert(t.len() == hi - lo);
    }
    // Validate: only digits and at most one decimal point, at least one digit.
    let mut i: usize = lo;
    let mut dot: usize = hi;
    let mut seen_digit = false;
    while i < hi
        invariant
            lo <= i <= hi <= n,
            n == s@.len(),
            lo <= dot <= hi,
            t == s@.subrange(lo as int, hi as int),
            t.len() == hi - lo,
            trimmed(s@) == t,
            forall|j: int| lo <= j < i ==> is_digit(s@[j]) || s@[j] == '.',
            dot < hi ==> dot < i && s@[dot as int] == '.' && forall|j: int|
                lo <= j < i && j != dot ==> s@[j] != '.',
            dot == hi ==> forall|j: int| lo <= j < i ==> s@[j] != '.',
            seen_digit <==> exists|j: int| lo <= j < i && is_digit(s@[j]),
        decreases hi - i,
    {
        let c = s.get_char(i);
        if is_digit_char(c) {
            seen_digit = true;
        } else if c == '.' {
            if dot < hi {
                proof {
                    lemma_count_dots_two(t, dot - lo, i - lo);
                }
                return 0;
            }
            dot = i;
        } else {
            proof {
                assert(!(is_digit(t[i - lo]) || t[i - lo] == '.'));
            }
            return 0;
        }
        i += 1;
    }
    if !seen_digit {
        proof {
            assert(forall|k: int| 0 <= k < t.len() ==> t[k] == s@[lo + k] && !is_digit(t[k]));
        }
        return 0;
    }
    proof {
        assert(all_amount_chars(t)) by {
            assert(forall|k: int| 0 <= k < t.len() ==> t[k] == s@[lo + k]);
        }
        assert(has_digit(t)) by {
            let j = choose|j: int| lo <= j < hi && is_digit(s@[j]);
            assert(t[j - lo] == s@[j]);
        }
        if dot == hi {
            lemma_count_dots_none(t);
        } else {
            lemma_count_dots_single(t, dot - lo);
        }
        assert(valid_amount_text(t));
        lemma_before_after_split(t, dot - lo);
        assert(before_dot(t) =~= s@.subrange(lo as int, dot as int));
        if dot < hi {
            assert(after_dot(t) =~= s@.subrange(dot as int + 1, hi as int));
        }
    }
    let ghost ip = s@.subrange(lo as int, dot as int);
    // Integer part.
    let mut acc: u128 = 0;
    let mut over = false;
    let mut k: usize = lo;
    proof {
        assert(s@.subrange(lo as int, lo as int) =~= Seq::<char>::empty());
    }
    while k < dot
        invariant
            lo <= k <= dot <= hi <= n,
            n == s@.len(),
            ip == s@.subrange(lo as int, dot as int),
            forall|j: int| lo <= j < dot ==> is_digit(s@[j]),
            !over ==> acc == digits_val(s@.subrange(lo as int, k as int)) && acc <= u64::MAX,
            over ==> digits_val(s@.subrange(lo as int, k as int)) > u64::MAX,
        decreases dot - k,
    {
        let c = s.get_char(k);
        let d = char_to_digit(c);
        proof {
            let p1 = s@.subrange(lo as int, k as int + 1);
            assert(p1.drop_last() =~= s@.subrange(lo as int, k as int));
            assert(digits_val(p1) == digits_val(s@.subrange(lo as int, k as int)) * 10
                + digit_of(s@[k as int]));
        }
        if !over {
            acc = acc * 10 + (d as u128);
            if acc > u64::MAX as u128 {
                over = true;
            }
        }
        k += 1;
    }
    proof {
        assert(s@.subrange(lo as int, dot as int) == ip);
    }
    if over {
        proof {
            assert(digits_val(ip) > u64::MAX);
            assert(cents_of_text(t) >= digits_val(before_dot(t)));
        }
        return 0;
    }
    // Fraction part: only the first two digits after the point count.
    let mut frac: u64 = 0;
    if dot < hi {
        let ghost f = s@.subrange(dot as int + 1, hi as int);
        if hi - dot >= 2 {
            proof {
                assert(f[0] == s@[dot as int + 1]);
            }
            frac = char_to_digit(s.get_char(dot + 1)) * 10;
        }
        if hi - dot >= 3 {
            proof {
                assert(f[1] == s@[dot as int + 2]);
            }
            frac = frac + char_to_digit(s.get_char(dot + 2));
        }
        proof {
            assert(frac == frac_hundredths(after_dot(t)));
        }
    }
    let cents: u128 = acc * 100 + (frac as u128);
    proof {
        assert(cents == cents_of_text(t));
    }
    if cents > u64::MAX as u128 {
        return 0;
    }
    cents as u64
}

/// The decimal representation of a number, most significant digit first.
pub open spec fn dec_rep(n: nat) -> Seq<char>
    decreases n,
{
    if n < 10 {
        seq![digit_char(n)]
    } else {
        dec_rep(n / 10).push(digit_char(n % 10))
    }
}

/// What [`format_cents`] returns: the integer part in decimal, a point, and
/// exactly two fraction digits.
pub open spec fn spec_format_cents(a: u64) -> Seq<char> {
    dec_rep((a / 100) as nat) + seq![
        '.',
        digit_char(((a % 100) / 10) as nat),
        digit_char((a % 100 % 10) as nat),
    ]
}

/// The decimal representation holds only digit characters and denotes the
/// number it was built from.
pub proof fn lemma_dec_rep(n: nat)
    ensures
        dec_rep(n).len() >= 1,
        forall|i: int| 0 <= i < dec_rep(n).len() ==> is_digit(#[trigger] dec_rep(n)[i]),
        digits_val(dec_rep(n)) == n,
    decreases n,
{
    if n < 10 {
        assert(digits_val(dec_rep(n)) == digits_val(dec_rep(n).drop_last()) * 10
            + digit_of(dec_rep(n).last()));
        assert(dec_rep(n).drop_last() =~= Seq::<char>::empty());
    } else {
        lemma_dec_rep(n / 10);
        let r = dec_rep(n / 10).push(digit_char(n % 10));
        assert(r.drop_last() =~= dec_rep(n / 10));
        assert(forall|i: int| 0 <= i < r.len() - 1 ==> r[i] == dec_rep(n / 10)[i]);
    }
}

/// Parsing the formatted text of an amount recovers the amount: the
/// fixed-point representation round-trips through its text form.
pub proof fn lemma_format_parse_round_trip(a: u64)
    ensures
        spec_parse_amount(spec_format_cents(a)) == a,
{
    let ipn = (a / 100) as nat;
    let d1 = digit_char(((a % 100) / 10) as nat);
    let d2 = digit_char((a % 100 % 10) as nat);
    let tail = seq!['.', d1, d2];
    let s = dec_rep(ipn) + tail;
    lemma_dec_rep(ipn);
    let dlen = dec_rep(ipn).len() as int;
    assert(s.len() == dlen + 3);
    assert(forall|i: int| 0 <= i < dlen ==> s[i] == #[trigger] dec_rep(ipn)[i]);
    assert(s[dlen] == '.' && s[dlen + 1] == d1 && s[dlen + 2] == d2);
    // No whitespace at either end, so trimming changes nothing.
    assert(is_digit(s[0]) && !is_ws(s[0]));
    assert(trim_front(s) == s);
    assert(is_digit(s[s.len() - 1]) && !is_ws(s.last()));
    assert(trim_back(s) == s);
    assert(trimmed(s) == s);
    // The text is well formed.
    assert(all_amount_chars(s));
    assert(has_digit(s)) by {
        assert(is_digit(s[0]));
    }
    lemma_count_dots_single(s, dlen);
    assert(valid_amount_text(s));
    // It splits at the decimal point into the two parts it was built from.
    lemma_before_after_split(s, dlen);
    assert(before_dot(s) =~= dec_rep(ipn));
    assert(after_dot(s) =~= seq![d1, d2]);
    assert(frac_hundredths(after_dot(s)) == digit_of(d1) * 10 + digit_of(d2));
    assert(cents_of_text(s) == ipn * 100 + ((a % 100) / 10) * 10 + a % 100 % 10);
    assert(ipn * 100 + ((a % 100) / 10) * 10 + a % 100 % 10 == a) by {
        assert(a / 100 * 100 + a % 100 == a);
        assert((a % 100) / 10 * 10 + a % 100 % 10 == a % 100);
    }
}

/// Render an amount in hundredths as text: the integer part, a point, and
/// exactly two fraction digits.
pub fn format_cents(a: u64) -> (r: String)
    ensures
        r@ == spec_format_cents(a),
{
    let ip = a / 100;
    let mut s = String::new();
    if ip == 0 {
        s.push('0');
        proof {
            assert(s@ =~= dec_rep((a / 100) as nat));
        }
    } else {
        let mut v: Vec<char> = Vec::new();
        let mut m = ip;
        while m > 0
            invariant
                m > 0 ==> dec_rep(ip as nat) == dec_rep(m as nat) + v@.reverse(),
                m == 0 ==> dec_rep(ip as nat) == v@.reverse(),
            decreases m,
        {
            let c = digit_to_char(m % 10);
            proof {
                assert(v@.push(c).reverse() =~= seq![c] + v@.reverse());
                if m >= 10 {
                    assert(dec_rep(m as nat) == dec_rep((m / 10) as nat).push(digit_char(
                        (m % 10) as nat,
                    )));
                    assert(dec_rep((m / 10) as nat).push(c) + v@.reverse() =~= dec_rep(
                        (m / 10) as nat,
                    ) + (seq![c] + v@.reverse()));
                } else {
                    assert(dec_rep(m as nat) =~= seq![c]);
                    assert(seq![c] + v@.reverse() =~= Seq::<char>::empty() + (seq![c]
                        + v@.reverse()));
                    assert(Seq::<char>::empty() + (seq![c] + v@.reverse()) =~= v@.push(
                        c,
                    ).reverse());
                }
            }
            v.push(c);
            m = m / 10;
        }
        let mut j = v.len();
        while j > 0
            invariant
                j <= v.len(),
                s@.len() == v@.len() - j,
                forall|k: int| 0 <= k < s@.len() ==> s@[k] == v@[v@.len() - 1 - k],
            decreases j,
        {
            j -= 1;
            let c = v[j];
            s.push(c);
        }
        proof {
            assert(s@ =~= v@.reverse());
        }
    }
    proof {
        assert(s@ == dec_rep((a / 100) as nat));
    }
    s.push('.');
    s.push(digit_to_char(a % 100 / 10));
    s.push(digit_to_char(a % 100 % 10));
    proof {
        assert(s@ =~= spec_format_cents(a));
    }
    s
}

} // verus!
