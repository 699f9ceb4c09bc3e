//! The text grammar of amounts: what a string denotes, and how an amount is
//! written.
//!
//! ```text
//! money  := ("-" | "(")? symbol? digits "." digits ")"?
//! symbol := any one character that is not an ASCII digit
//! ```
//! A leading `(` needs a closing `)`. The dollars must fit in 64 bits and the
//! cents must be below 100.
use vstd::prelude::*;

use super::options::NegativeView;

verus! {

/// `c` is one of `0` to `9`.
pub open spec fn is_ascii_digit(c: char) -> bool {
    '0' <= c && c <= '9'
}

/// The value of the digit character `c`.
pub open spec fn digit_value(c: char) -> nat {
    (c as u32 - '0' as u32) as nat
}

/// The character of the digit `d`.
pub open spec fn digit_char(d: nat) -> char {
    (d + '0' as u32) as char
}

/// Every character of `s` is an ASCII digit.
pub open spec fn all_digits(s: Seq<char>) -> bool {
    forall|i: int| 0 <= i < s.len() ==> is_ascii_digit(#[trigger] s[i])
}

/// `s` is a non-empty run of ASCII digits.
pub open spec fn is_numeral(s: Seq<char>) -> bool {
    s.len() > 0 && all_digits(s)
}

/// The number that the digits `s` write, most significant first.
pub open spec fn digits_value(s: Seq<char>) -> nat
    decreases s.len(),
{
    if s.len() == 0 {
        0
    } else {
        digits_value(s.drop_last()) * 10 + digit_value(s.last())
    }
}

/// The decimal digits of `n`, without leading zeros.
pub open spec fn decimal(n: nat) -> Seq<char>
    decreases n,
{
    if n < 10 {
        seq![digit_char(n)]
    } else {
        decimal(n / 10).push(digit_char(n % 10))
    }
}

/// The decimal digits of `n`, padded with a zero to at least two digits.
pub open spec fn two_digits(n: nat) -> Seq<char> {
    if n < 10 {
        seq!['0', digit_char(n)]
    } else {
        decimal(n)
    }
}

/// `dollars.cents`, the cents written with two digits.
pub open spec fn number_text(dollars: nat, cents: nat) -> Seq<char> {
    decimal(dollars).push('.') + two_digits(cents)
}

/// The text of an amount: the number, after the symbol if it is shown, then
/// the sign of a negative amount as `view` writes it.
pub open spec fn rendered(
    dollars: nat,
    cents: nat,
    negative: bool,
    symbol: char,
    show_symbol: bool,
    view: NegativeView,
) -> Seq<char> {
    let body = if show_symbol {
        seq![symbol] + number_text(dollars, cents)
    } else {
        number_text(dollars, cents)
    };
    if !negative {
        body
    } else {
        match view {
            NegativeView::Minus => seq!['-'] + body,
            NegativeView::Paren => seq!['('] + body.push(')'),
            NegativeView::Hide => body,
        }
    }
}

/// What a string says: its magnitude, whether it has a sign marker, whether
/// that marker is a pair of parentheses, and its symbol if it has one.
pub struct TextAmount {
    pub dollars: nat,
    pub cents: nat,
    pub negative: bool,
    pub paren: bool,
    pub symbol: Option<char>,
}

/// Splits off a leading sign marker: the rest, whether the text is negative,
/// and whether the marker is `(`. `None` for a `(` without a final `)`.
pub open spec fn strip_sign(s: Seq<char>) -> Option<(Seq<char>, bool, bool)> {
    if s.len() > 0 && s[0] == '-' {
        Some((s.drop_first(), true, false))
    } else if s.len() > 0 && s[0] == '(' {
        if s.last() == ')' {
            Some((s.subrange(1, s.len() - 1), true, true))
        } else {
            None
        }
    } else {
        Some((s, false, false))
    }
}

/// Splits off a leading symbol: a first character that is not a digit.
pub open spec fn split_symbol(u: Seq<char>) -> (Option<char>, Seq<char>) {
    if u.len() > 0 && !is_ascii_digit(u[0]) {
        (Some(u[0]), u.drop_first())
    } else {
        (None, u)
    }
}

/// `t` is a numeral, then a `.` at index `k`, then a numeral.
pub open spec fn splits_at_dot(t: Seq<char>, k: int) -> bool {
    &&& 0 <= k < t.len()
    &&& t[k] == '.'
    &&& is_numeral(t.take(k))
    &&& is_numeral(t.skip(k + 1))
}

/// The dollars and cents that `t` writes as `digits "." digits`, where the
/// dollars fit in 64 bits and the cents are below 100.
pub open spec fn dollars_and_cents(t: Seq<char>) -> Option<(nat, nat)> {
    if exists|k: int| splits_at_dot(t, k) {
        let k = choose|k: int| splits_at_dot(t, k);
        let dollars = digits_value(t.take(k));
        let cents = digits_value(t.skip(k + 1));
        if dollars <= u64::MAX && cents < 100 {
            Some((dollars, cents))
        } else {
            None
        }
    } else {
        None
    }
}

/// What the text `s` says, or `None` where it breaks the grammar.
pub open spec fn parse_text(s: Seq<char>) -> Option<TextAmount> {
    match strip_sign(s) {
        None => None,
        Some((u, negative, paren)) => {
            let (symbol, t) = split_symbol(u);
            match dollars_and_cents(t) {
                None => None,
                Some((dollars, cents)) => Some(
                    TextAmount { dollars, cents, negative, paren, symbol },
                ),
            }
        },
    }
}

/// A prefix of a digit string never writes a larger number.
pub proof fn lemma_digits_value_prefix(s: Seq<char>, k: int)
    requires
        0 <= k <= s.len(),
    ensures
        digits_value(s.take(k)) <= digits_value(s),
    decreases s.len(),
{
    if k == s.len() {
        assert(s.take(k) =~= s);
    } else {
        lemma_digits_value_prefix(s.drop_last(), k);
        assert(s.drop_last().take(k) =~= s.take(k));
    }
}

/// At most one index splits `t` into numeral, dot and numeral.
proof fn lemma_dot_unique(t: Seq<char>, j: int, k: int)
    requires
        splits_at_dot(t, j),
        splits_at_dot(t, k),
    ensures
        j == k,
{
    if j < k {
        assert(t.take(k)[j] == t[j]);
    } else if k < j {
        assert(t.take(j)[k] == t[k]);
    }
}

/// A digit character has the digit's value.
pub proof fn lemma_digit_char(d: nat)
    requires
        d < 10,
    ensures
        is_ascii_digit(digit_char(d)),
        digit_value(digit_char(d)) == d,
{
}

/// The decimal digits of `n` are a numeral that writes `n`.
pub proof fn lemma_decimal_reads_back(n: nat)
    ensures
        is_numeral(decimal(n)),
        digits_value(decimal(n)) == n,
    decreases n,
{
    if n < 10 {
        lemma_digit_char(n);
        assert(decimal(n).drop_last() =~= Seq::<char>::empty());
        assert(digits_value(Seq::<char>::empty()) == 0);
    } else {
        lemma_decimal_reads_back(n / 10);
        lemma_digit_char(n % 10);
        assert(decimal(n).drop_last() =~= decimal(n / 10));
        assert(digits_value(decimal(n)) == digits_value(decimal(n / 10)) * 10 + n % 10);
    }
}

/// The two digits of a number below 100 are a numeral that writes it.
pub proof fn lemma_two_digits_reads_back(n: nat)
    requires
        n < 100,
    ensures
        is_numeral(two_digits(n)),
        digits_value(two_digits(n)) == n,
{
    if n < 10 {
        lemma_digit_char(0);
        lemma_digit_char(n);
        let s = two_digits(n);
        assert(s.drop_last() =~= seq![digit_char(0)]);
        assert(s.drop_last().drop_last() =~= Seq::<char>::empty());
        assert(digits_value(Seq::<char>::empty()) == 0);
        assert(digits_value(s.drop_last()) == 0);
    } else {
        lemma_decimal_reads_back(n);
    }
}

/// The number text of dollars and cents starts with a digit and reads back
/// as those dollars and cents.
pub proof fn lemma_number_text_reads_back(dollars: nat, cents: nat)
    requires
        dollars <= u64::MAX,
        cents < 100,
    ensures
        number_text(dollars, cents).len() > 0,
        is_ascii_digit(number_text(dollars, cents)[0]),
        dollars_and_cents(number_text(dollars, cents)) == Some((dollars, cents)),
{
    let t = number_text(dollars, cents);
    let k = decimal(dollars).len() as int;
    lemma_decimal_reads_back(dollars);
    lemma_two_digits_reads_back(cents);
    assert(t.take(k) =~= decimal(dollars));
    assert(t.skip(k + 1) =~= two_digits(cents));
    assert(t[0] == decimal(dollars)[0]);
    assert(splits_at_dot(t, k));
    let j = choose|j: int| splits_at_dot(t, j);
    lemma_dot_unique(t, j, k);
}

/// Relies on String::push: appends one character at the end.
#[verifier::external_body]
pub(crate) fn push_char(s: &mut String, c: char)
    ensures
        final(s)@ == old(s)@.push(c),
{
    s.push(c);
}

/// The character of a digit below ten.
fn digit_to_char(d: u64) -> (c: char)
    requires
        d < 10,
    ensures
        c == digit_char(d as nat),
{
    (d as u8 + 48) as char
}

/// Appends the decimal digits of `n`.
pub(crate) fn push_decimal(s: &mut String, n: u64)
    ensures
        final(s)@ == old(s)@ + decimal(n as nat),
    decreases n,
{
    let ghost start = s@;
    if n >= 10 {
        push_decimal(s, n / 10);
    }
    push_char(s, digit_to_char(n % 10));
    proof {
        if n >= 10 {
            assert(start + decimal(n as nat) =~= start + decimal((n / 10) as nat) + seq![
                digit_char((n % 10) as nat),
            ]);
        } else {
            assert(start + decimal(n as nat) =~= start.push(digit_char(n as nat)));
        }
    }
}

/// The end of the run of ASCII digits in `s` that starts at `from`, looking
/// no further than `to`.
pub(crate) fn scan_digits(s: &str, from: usize, to: usize) -> (k: usize)
    requires
        from <= to <= s@.len(),
    ensures
        from <= k <= to,
        all_digits(s@.subrange(from as int, k as int)),
        k < to ==> !is_ascii_digit(s@[k as int]),
{
    let mut k = from;
    while k < to
        invariant
            from <= k <= to <= s@.len(),
            all_digits(s@.subrange(from as int, k as int)),
        decreases to - k,
    {
        let c = s.get_char(k);
        if !(c >= '0' && c <= '9') {
            return k;
        }
        assert(s@.subrange(from as int, k + 1) =~= s@.subrange(from as int, k as int).push(c));
        k = k + 1;
    }
    k
}

/// The number that the digits `s@[from..to]` write, where it fits in 64 bits.
pub(crate) fn digits_to_u64(s: &str, from: usize, to: usize) -> (r: Option<u64>)
    requires
        from <= to <= s@.len(),
        all_digits(s@.subrange(from as int, to as int)),
    ensures
        match r {
            Some(v) => v == digits_value(s@.subrange(from as int, to as int)),
            None => digits_value(s@.subrange(from as int, to as int)) > u64::MAX,
        },
{
    let ghost whole = s@.subrange(from as int, to as int);
    let mut v: u64 = 0;
    let mut i = from;
    while i < to
        invariant
            from <= i <= to <= s@.len(),
            whole == s@.subrange(from as int, to as int),
            all_digits(whole),
            v == digits_value(s@.subrange(from as int, i as int)),
        decreases to - i,
    {
        let c = s.get_char(i);
        assert(whole[i - from] == c);
        let d = (c as u32 - 48) as u64;
        let ghost next = s@.subrange(from as int, i + 1);
        assert(next.drop_last() =~= s@.subrange(from as int, i as int));
        assert(digits_value(next) == v * 10 + d);
        proof {
            assert(whole.take(i + 1 - from) =~= next);
            lemma_digits_value_prefix(whole, i + 1 - from);
        }
        match v.checked_mul(10) {
            None => {
                return None;
            },
            Some(t) => match t.checked_add(d) {
                None => {
                    return None;
                },
                Some(w) => {
                    v = w;
                },
            },
        }
        i = i + 1;
    }
    Some(v)
}

/// The dollars and cents that `s@[lo..hi]` writes, as [`dollars_and_cents`]
/// gives them.
pub(crate) fn read_dollars_and_cents(s: &str, lo: usize, hi: usize) -> (r: Option<(u64, u8)>)
    requires
        lo <= hi <= s@.len(),
    ensures
        match dollars_and_cents(s@.subrange(lo as int, hi as int)) {
            None => r is None,
            Some((d, c)) => r == Some((d as u64, c as u8)),
        },
{
    let ghost t = s@.subrange(lo as int, hi as int);
    let k = scan_digits(s, lo, hi);
    let ghost j = k - lo;
    proof {
        assert forall|i: int| splits_at_dot(t, i) implies i == j by {
            if i < j {
                assert(s@.subrange(lo as int, k as int)[i] == t[i]);
            } else if j < i {
                assert(t.take(i)[j] == t[j]);
                assert(t[j] == s@[k as int]);
            }
        }
        assert(t.take(j) =~= s@.subrange(lo as int, k as int));
    }
    if k == lo || k >= hi {
        return None;
    }
    if s.get_char(k) != '.' {
        return None;
    }
    let e = scan_digits(s, k + 1, hi);
    proof {
        assert(t.skip(j + 1) =~= s@.subrange(k + 1, hi as int));
        if e < hi {
            assert(t.skip(j + 1)[e - k - 1] == s@[e as int]);
        } else {
            assert(s@.subrange(k + 1, e as int) =~= s@.subrange(k + 1, hi as int));
        }
    }
    if e != hi || e == k + 1 {
        return None;
    }
    assert(splits_at_dot(t, j));
    let d = digits_to_u64(s, lo, k);
    let c = digits_to_u64(s, k + 1, hi);
    match (d, c) {
        (Some(d), Some(c)) => {
            if c < 100 {
                Some((d, c as u8))
            } else {
                None
            }
        },
        _ => None,
    }
}

} // verus!
