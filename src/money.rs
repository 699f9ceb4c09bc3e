//! The monetary value: a magnitude in dollars and cents, and a sign.
use vstd::prelude::*;

use core::cmp::Ordering;

pub mod laws;
pub mod options;
pub mod text;

use options::{DEFAULT_SYMBOL, NegativeView, Options};
use text::{parse_text, push_char, push_decimal, read_dollars_and_cents, rendered, TextAmount};

verus! {

/// Construction was given 100 cents or more.
#[derive(Debug, Clone, Copy)]
pub struct MoneyErrorCents;

/// A string broke the grammar of amounts.
#[derive(Debug, Clone, Copy)]
pub struct MoneyErrorString;

/// A total in cents does not fit in a signed 64-bit integer.
#[derive(Debug, Clone, Copy)]
pub struct MoneyErrorOverflow;

impl MoneyErrorCents {
    /// The message of this error.
    pub fn to_string(&self) -> (r: String)
        ensures
            r@ == "invalid number of cents"@,
    {
        String::from_str("invalid number of cents")
    }
}

impl MoneyErrorString {
    /// The message of this error.
    pub fn to_string(&self) -> (r: String)
        ensures
            r@ == "invalid money string"@,
    {
        String::from_str("invalid money string")
    }
}

impl MoneyErrorOverflow {
    /// The message of this error.
    pub fn to_string(&self) -> (r: String)
        ensures
            r@ == "addition has resulted in overflow"@,
    {
        String::from_str("addition has resulted in overflow")
    }
}

/// The sign of an amount.
#[derive(Debug, Copy, Clone, PartialEq, Eq, Structural)]
pub enum MoneySign {
    Positive,
    Negative,
}

/// The sign that an amount of `dollars` and `cents` takes: a zero amount is
/// always positive.
pub open spec fn normalized_sign(dollars: int, cents: int, sign: MoneySign) -> MoneySign {
    if dollars == 0 && cents == 0 {
        MoneySign::Positive
    } else {
        sign
    }
}

/// The absolute value of `t`.
pub open spec fn abs(t: int) -> nat {
    if t < 0 {
        (-t) as nat
    } else {
        t as nat
    }
}

/// An amount of money: dollars, cents below 100, a sign, and the options
/// that it is written with.
#[derive(Debug, Copy, Clone)]
pub struct Money {
    dollars: u64,
    cents: u8,
    sign: MoneySign,
    options: Options,
}

impl Money {
    pub closed spec fn spec_dollars(&self) -> u64 {
        self.dollars
    }

    pub closed spec fn spec_cents(&self) -> u8 {
        self.cents
    }

    pub closed spec fn spec_sign(&self) -> MoneySign {
        self.sign
    }

    /// The options that this amount is written with.
    pub closed spec fn display_options(&self) -> Options {
        self.options
    }

    /// Cents below 100, no negative zero, and a symbol that is not a digit.
    pub open spec fn wf(&self) -> bool {
        &&& self.cents() < 100
        &&& self.sign() == normalized_sign(self.dollars() as int, self.cents() as int, self.sign())
        &&& self.display_options().wf()
    }

    /// The size of the amount in cents.
    pub open spec fn magnitude(&self) -> nat {
        (self.dollars() * 100 + self.cents()) as nat
    }

    /// The amount in cents, with its sign.
    pub open spec fn total_cents(&self) -> int {
        if self.sign() == MoneySign::Negative {
            -self.magnitude()
        } else {
            self.magnitude() as int
        }
    }

    /// The two amounts have the same dollars, cents and sign; options do not
    /// count.
    pub open spec fn same_amount(&self, other: &Money) -> bool {
        &&& self.dollars() == other.dollars()
        &&& self.cents() == other.cents()
        &&& self.sign() == other.sign()
    }

    /// This is the amount of `t` cents, with the default options.
    pub open spec fn has_total(&self, t: int) -> bool {
        &&& self.dollars() == abs(t) / 100
        &&& self.cents() == abs(t) % 100
        &&& self.sign() == if t < 0 {
            MoneySign::Negative
        } else {
            MoneySign::Positive
        }
        &&& self.display_options() == Options::new()
    }

    /// The amount of `t` cents, with the default options.
    pub closed spec fn from_total(t: int) -> Money {
        Money {
            dollars: (abs(t) / 100) as u64,
            cents: (abs(t) % 100) as u8,
            sign: if t < 0 {
                MoneySign::Negative
            } else {
                MoneySign::Positive
            },
            options: Options::new(),
        }
    }

    /// The amount with its sign turned round; zero stays positive.
    pub closed spec fn negated(self) -> Money {
        Money {
            sign: normalized_sign(
                self.dollars as int,
                self.cents as int,
                if self.sign == MoneySign::Positive {
                    MoneySign::Negative
                } else {
                    MoneySign::Positive
                },
            ),
            ..self
        }
    }

    /// The amount is the amount of `t` cents exactly when it is built from
    /// them.
    pub proof fn lemma_from_total(t: int)
        requires
            abs(t) / 100 <= u64::MAX,
        ensures
            Money::from_total(t).has_total(t),
            Money::from_total(t).wf(),
            forall|m: Money| #[trigger] m.has_total(t) ==> m == Money::from_total(t),
    {
        Options::lemma_new_is_default();
    }

    /// Builds an amount from its dollars, its cents and its sign, with the
    /// default options. Fails when `cents` is 100 or more. A zero amount is
    /// positive whatever `sign` says.
    pub fn new(dollars: u64, cents: u8, sign: MoneySign) -> (r: Result<Money, MoneyErrorCents>)
        ensures
            r is Ok <==> cents < 100,
            r matches Ok(m) ==> {
                &&& m.wf()
                &&& m.dollars() == dollars
                &&& m.cents() == cents
                &&& m.sign() == normalized_sign(dollars as int, cents as int, sign)
                &&& m.display_options() == Options::new()
            },
    {
        proof {
            Options::lemma_new_is_default();
        }
        let mut sign = sign;
        if dollars == 0 && cents == 0 {
            sign = MoneySign::Positive;
        }
        if cents < 100 {
            Ok(Money { dollars, cents, sign, options: Options::new() })
        } else {
            Err(MoneyErrorCents)
        }
    }

    /// The dollars of the amount.
    #[verifier::when_used_as_spec(spec_dollars)]
    pub fn dollars(&self) -> (r: u64)
        ensures
            r == self.dollars(),
    {
        self.dollars
    }

    /// The cents of the amount.
    #[verifier::when_used_as_spec(spec_cents)]
    pub fn cents(&self) -> (r: u8)
        ensures
            r == self.cents(),
    {
        self.cents
    }

    /// The sign of the amount.
    #[verifier::when_used_as_spec(spec_sign)]
    pub fn sign(&self) -> (r: MoneySign)
        ensures
            r == self.sign(),
    {
        self.sign
    }

    /// The options of this amount, to change in place.
    pub fn options(&mut self) -> (r: &mut Options)
        ensures
            *r == old(self).display_options(),
            final(self).display_options() == *final(r),
            final(self).dollars() == old(self).dollars(),
            final(self).cents() == old(self).cents(),
            final(self).sign() == old(self).sign(),
    {
        &mut self.options
    }

    /// The options of this amount, to read.
    pub fn options_immutable(&self) -> (r: &Options)
        ensures
            *r == self.display_options(),
    {
        &self.options
    }

    /// The amount in cents, with its sign. Fails when the size of the amount
    /// in cents is above `i64::MAX`.
    pub fn as_cents(&self) -> (r: Result<i64, MoneyErrorOverflow>)
        ensures
            r is Ok <==> self.magnitude() <= i64::MAX,
            r matches Ok(v) ==> v == self.total_cents(),
    {
        convert_money_to_whole(self)
    }

    /// The amount of `cents` cents, with the default options.
    pub fn from_cents(cents: i64) -> (m: Money)
        ensures
            m.has_total(cents as int),
            m == Money::from_total(cents as int),
            m.wf(),
    {
        convert_whole_to_money(cents)
    }

    /// This amount, with its options, is what the text `p` says: its sign
    /// marker makes it negative unless it is zero, `(` selects the
    /// parenthesised view, and a symbol is shown exactly when the text has
    /// one.
    pub open spec fn is_read_from(&self, p: TextAmount) -> bool {
        &&& self.dollars() == p.dollars
        &&& self.cents() == p.cents
        &&& self.sign() == normalized_sign(
            p.dollars as int,
            p.cents as int,
            if p.negative {
                MoneySign::Negative
            } else {
                MoneySign::Positive
            },
        )
        &&& self.display_options().symbol() == match p.symbol {
            Some(c) => c,
            None => DEFAULT_SYMBOL,
        }
        &&& self.display_options().show_symbol() == p.symbol is Some
        &&& self.display_options().negative_view() == if p.paren {
            NegativeView::Paren
        } else {
            NegativeView::Minus
        }
    }

    /// The text of this amount under its options.
    pub open spec fn text(&self) -> Seq<char> {
        rendered(
            self.dollars() as nat,
            self.cents() as nat,
            self.sign() == MoneySign::Negative,
            self.display_options().symbol(),
            self.display_options().show_symbol(),
            self.display_options().negative_view(),
        )
    }

    /// Reads an amount from text such as `5.34`, `$5.34`, `-$5.34` or
    /// `($5.34)`. Fails on text that breaks the grammar, on dollars above
    /// `u64::MAX` and on cents of 100 or more.
    pub fn from_str(s: &str) -> (r: Result<Money, MoneyErrorString>)
        ensures
            r is Err <==> parse_text(s@) is None,
            r matches Ok(m) ==> parse_text(s@) matches Some(p) && m.is_read_from(p) && m.wf(),
    {
        let n = s.unicode_len();
        let mut lo: usize = 0;
        let mut hi: usize = n;
        let mut negative = false;
        let mut paren = false;
        if n > 0 && s.get_char(0) == '-' {
            negative = true;
            lo = 1;
        } else if n > 0 && s.get_char(0) == '(' {
            if s.get_char(n - 1) == ')' {
                negative = true;
                paren = true;
                lo = 1;
                hi = n - 1;
            } else {
                return Err(MoneyErrorString);
            }
        }
        let ghost u = s@.subrange(lo as int, hi as int);
        assert(text::strip_sign(s@) == Some((u, negative, paren))) by {
            if negative && !paren {
                assert(u =~= s@.drop_first());
            } else if !negative {
                assert(u =~= s@);
            }
        }
        let mut symbol: Option<char> = None;
        if lo < hi {
            let c = s.get_char(lo);
            if !(c >= '0' && c <= '9') {
                symbol = Some(c);
                lo = lo + 1;
            }
        }
        assert(text::split_symbol(u) == (symbol, s@.subrange(lo as int, hi as int))) by {
            if symbol is Some {
                assert(u.drop_first() =~= s@.subrange(lo as int, hi as int));
            }
        }
        match read_dollars_and_cents(s, lo, hi) {
            None => Err(MoneyErrorString),
            Some((dollars, cents)) => {
                let sign = if negative {
                    MoneySign::Negative
                } else {
                    MoneySign::Positive
                };
                let mut m = match Money::new(dollars, cents, sign) {
                    Ok(m) => m,
                    Err(_) => {
                        return Err(MoneyErrorString);
                    },
                };
                proof {
                    Options::lemma_new_is_default();
                }
                if paren {
                    m.options.set_negative_view(NegativeView::Paren);
                }
                match symbol {
                    Some(c) => {
                        let _ = m.options.set_symbol(c);
                    },
                    None => {
                        m.options.set_show_symbol(false);
                    },
                }
                Ok(m)
            },
        }
    }

    /// The text of this amount: the dollars, a `.` and two digits of cents,
    /// after the symbol if it is shown; a negative amount then gets a `-`
    /// in front, parentheses round it, or nothing, as its options say.
    pub fn to_string(&self) -> (r: String)
        ensures
            r@ == self.text(),
    {
        let negative = self.sign == MoneySign::Negative;
        let view = self.options.negative_view();
        let mut s = String::new();
        if negative {
            match view {
                NegativeView::Minus => push_char(&mut s, '-'),
                NegativeView::Paren => push_char(&mut s, '('),
                NegativeView::Hide => {},
            }
        }
        let ghost prefix = s@;
        if self.options.show_symbol() {
            push_char(&mut s, self.options.symbol());
        }
        let ghost symbol_part = s@;
        push_decimal(&mut s, self.dollars);
        push_char(&mut s, '.');
        if self.cents < 10 {
            push_char(&mut s, '0');
        }
        push_decimal(&mut s, self.cents as u64);
        let ghost body = s@.skip(prefix.len() as int);
        assert(body =~= symbol_part.skip(prefix.len() as int) + text::number_text(
            self.dollars as nat,
            self.cents as nat,
        ));
        if negative && view == NegativeView::Paren {
            push_char(&mut s, ')');
        }
        assert(s@ =~= self.text());
        s
    }

    /// Both amounts fit in an `i64` of cents, and so does their sum.
    pub open spec fn can_add(&self, rhs: &Money) -> bool {
        &&& self.magnitude() <= i64::MAX
        &&& rhs.magnitude() <= i64::MAX
        &&& i64::MIN <= self.total_cents() + rhs.total_cents() <= i64::MAX
    }

    /// Both amounts fit in an `i64` of cents, and so does their difference.
    pub open spec fn can_subtract(&self, rhs: &Money) -> bool {
        &&& self.magnitude() <= i64::MAX
        &&& rhs.magnitude() <= i64::MAX
        &&& i64::MIN <= self.total_cents() - rhs.total_cents() <= i64::MAX
    }

    /// Adds `other` to this amount; the options become the default ones.
    pub fn add_assign(&mut self, other: Money)
        requires
            old(self).can_add(&other),
        ensures
            final(self).has_total(old(self).total_cents() + other.total_cents()),
            final(self).wf(),
    {
        *self = *self + other;
    }

    /// Subtracts `other` from this amount; the options become the default
    /// ones.
    pub fn sub_assign(&mut self, other: Money)
        requires
            old(self).can_subtract(&other),
        ensures
            final(self).has_total(old(self).total_cents() - other.total_cents()),
            final(self).wf(),
    {
        *self = *self - other;
    }

    /// The signed total in cents, for an amount whose size fits in an `i64`.
    fn total_in_range(&self) -> (r: i64)
        requires
            self.magnitude() <= i64::MAX,
        ensures
            r == self.total_cents(),
    {
        let magnitude = self.dollars as i64 * 100 + self.cents as i64;
        if self.sign == MoneySign::Negative {
            -magnitude
        } else {
            magnitude
        }
    }

    /// The signed total in cents, exact for every amount.
    fn wide_total(&self) -> (r: i128)
        ensures
            r == self.total_cents(),
    {
        let magnitude = self.dollars as i128 * 100 + self.cents as i128;
        if self.sign == MoneySign::Negative {
            -magnitude
        } else {
            magnitude
        }
    }

    /// Gives `dest` the options of `src`; the amount of `dest` stays.
    pub fn copy_options(dest: &mut Money, src: &Money)
        ensures
            final(dest).display_options() == src.display_options(),
            final(dest).dollars() == old(dest).dollars(),
            final(dest).cents() == old(dest).cents(),
            final(dest).sign() == old(dest).sign(),
    {
        dest.options = src.options;
    }
}

/// The order of two integers.
pub open spec fn compare(a: int, b: int) -> Ordering {
    if a < b {
        Ordering::Less
    } else if a > b {
        Ordering::Greater
    } else {
        Ordering::Equal
    }
}

impl Default for Money {
    /// Zero, with the default options.
    fn default() -> (r: Money)
        ensures
            r.has_total(0),
            r.wf(),
    {
        proof {
            Money::lemma_from_total(0);
        }
        Money { dollars: 0, cents: 0, sign: MoneySign::Positive, options: Options::new() }
    }
}

impl core::ops::Add for Money {
    type Output = Money;

    /// The sum of the totals in cents, as a new amount with the default
    /// options.
    fn add(self, other: Money) -> (r: Money)
        ensures
            r.has_total(self.total_cents() + other.total_cents()),
            r.wf(),
    {
        let whole_1 = self.total_in_range();
        let whole_2 = other.total_in_range();
        convert_whole_to_money(whole_1 + whole_2)
    }
}

impl vstd::std_specs::ops::AddSpecImpl for Money {
    open spec fn obeys_add_spec() -> bool {
        true
    }

    open spec fn add_req(self, rhs: Money) -> bool {
        self.can_add(&rhs)
    }

    open spec fn add_spec(self, rhs: Money) -> Money {
        Money::from_total(self.total_cents() + rhs.total_cents())
    }
}

impl core::ops::Sub for Money {
    type Output = Money;

    /// The difference of the totals in cents, as a new amount with the
    /// default options.
    fn sub(self, other: Money) -> (r: Money)
        ensures
            r.has_total(self.total_cents() - other.total_cents()),
            r.wf(),
    {
        let whole_1 = self.total_in_range();
        let whole_2 = other.total_in_range();
        convert_whole_to_money(whole_1 - whole_2)
    }
}

impl vstd::std_specs::ops::SubSpecImpl for Money {
    open spec fn obeys_sub_spec() -> bool {
        true
    }

    open spec fn sub_req(self, rhs: Money) -> bool {
        self.can_subtract(&rhs)
    }

    open spec fn sub_spec(self, rhs: Money) -> Money {
        Money::from_total(self.total_cents() - rhs.total_cents())
    }
}

impl core::ops::Neg for Money {
    type Output = Money;

    /// The amount with its sign turned round and its options kept; zero
    /// stays positive.
    fn neg(self) -> (r: Money)
        ensures
            r.dollars() == self.dollars(),
            r.cents() == self.cents(),
            r.sign() == normalized_sign(
                self.dollars() as int,
                self.cents() as int,
                if self.sign() == MoneySign::Positive {
                    MoneySign::Negative
                } else {
                    MoneySign::Positive
                },
            ),
            r.display_options() == self.display_options(),
            r.total_cents() == -self.total_cents(),
            self.wf() ==> r.wf(),
    {
        let sign = if self.dollars == 0 && self.cents == 0 {
            MoneySign::Positive
        } else if self.sign == MoneySign::Positive {
            MoneySign::Negative
        } else {
            MoneySign::Positive
        };
        Money { dollars: self.dollars, cents: self.cents, sign, options: self.options }
    }
}

impl vstd::std_specs::ops::NegSpecImpl for Money {
    open spec fn obeys_neg_spec() -> bool {
        true
    }

    open spec fn neg_req(self) -> bool {
        true
    }

    open spec fn neg_spec(self) -> Money {
        self.negated()
    }
}

impl PartialEq for Money {
    /// Equal dollars, cents and sign; the options do not count.
    fn eq(&self, other: &Money) -> (r: bool)
        ensures
            r == self.same_amount(other),
    {
        self.dollars == other.dollars && self.cents == other.cents && self.sign == other.sign
    }
}

impl vstd::std_specs::cmp::PartialEqSpecImpl for Money {
    open spec fn obeys_eq_spec() -> bool {
        true
    }

    open spec fn eq_spec(&self, other: &Money) -> bool {
        self.same_amount(other)
    }
}

impl PartialOrd for Money {
    /// The order of the totals in cents.
    fn partial_cmp(&self, other: &Money) -> (r: Option<Ordering>)
        ensures
            r == Some(compare(self.total_cents(), other.total_cents())),
    {
        let m1 = self.wide_total();
        let m2 = other.wide_total();
        if m1 < m2 {
            Some(Ordering::Less)
        } else if m1 > m2 {
            Some(Ordering::Greater)
        } else {
            Some(Ordering::Equal)
        }
    }
}

impl vstd::std_specs::cmp::PartialOrdSpecImpl for Money {
    open spec fn obeys_partial_cmp_spec() -> bool {
        true
    }

    open spec fn partial_cmp_spec(&self, other: &Money) -> Option<Ordering> {
        Some(compare(self.total_cents(), other.total_cents()))
    }
}

impl core::str::FromStr for Money {
    type Err = MoneyErrorString;

    /// The same as [`Money::from_str`].
    fn from_str(s: &str) -> (r: Result<Money, MoneyErrorString>)
        ensures
            r is Err <==> parse_text(s@) is None,
            r matches Ok(m) ==> parse_text(s@) matches Some(p) && m.is_read_from(p) && m.wf(),
    {
        Money::from_str(s)
    }
}

/// The signed total in cents of `money`, where it fits in an `i64`.
fn convert_money_to_whole(money: &Money) -> (r: Result<i64, MoneyErrorOverflow>)
    ensures
        r is Ok <==> money.magnitude() <= i64::MAX,
        r matches Ok(v) ==> v == money.total_cents(),
{
    if money.dollars > 92233720368547758 {
        assert(money.dollars * 100 > i64::MAX) by (nonlinear_arith)
            requires
                money.dollars > 92233720368547758,
        ;
        return Err(MoneyErrorOverflow);
    }
    let dollars: i64 = (money.dollars * 100) as i64;
    let cents: i64 = money.cents as i64;
    match dollars.checked_add(cents) {
        Some(sum) => {
            if money.sign == MoneySign::Negative {
                Ok(-sum)
            } else {
                Ok(sum)
            }
        },
        None => Err(MoneyErrorOverflow),
    }
}

/// The amount of `whole` cents, with the default options.
fn convert_whole_to_money(whole: i64) -> (m: Money)
    ensures
        m.has_total(whole as int),
        m == Money::from_total(whole as int),
        m.wf(),
{
    proof {
        Money::lemma_from_total(whole as int);
    }
    let magnitude: u64 = if whole < 0 {
        ((-(whole + 1)) as u64) + 1
    } else {
        whole as u64
    };
    let sign = if whole < 0 {
        MoneySign::Negative
    } else {
        MoneySign::Positive
    };
    Money {
        dollars: magnitude / 100,
        cents: (magnitude % 100) as u8,
        sign,
        options: Options::new(),
    }
}

} // verus!
