//! What holds across the operations on amounts.
use vstd::prelude::*;

use vstd::std_specs::cmp::{PartialEqIs, PartialOrdIs};

use super::options::NegativeView;
use super::text::{lemma_number_text_reads_back, number_text, parse_text};
use super::{Money, MoneySign};

verus! {

/// Amounts with cents below 100 and the same size in cents have the same
/// dollars and cents.
pub proof fn lemma_magnitude_determines(a: Money, b: Money)
    requires
        a.cents() < 100,
        b.cents() < 100,
        a.magnitude() == b.magnitude(),
    ensures
        a.dollars() == b.dollars(),
        a.cents() == b.cents(),
{
    let (d1, c1, d2, c2) = (a.dollars() as int, a.cents() as int, b.dollars() as int, b.cents() as int);
    assert(d1 == d2) by (nonlinear_arith)
        requires
            0 <= c1 < 100,
            0 <= c2 < 100,
            d1 * 100 + c1 == d2 * 100 + c2,
    ;
}

/// A well-formed amount is fixed by its total in cents: the amount built
/// from `from_cents(v.as_cents())` equals `v`.
pub proof fn lemma_cents_round_trip(v: Money)
    requires
        v.wf(),
        v.magnitude() <= i64::MAX,
    ensures
        forall|m: Money| #[trigger] m.has_total(v.total_cents()) ==> m.is_eq(&v),
{
    let (d, c) = (v.dollars() as int, v.cents() as int);
    assert((d * 100 + c) / 100 == d && (d * 100 + c) % 100 == c) by (nonlinear_arith)
        requires
            0 <= c < 100,
            0 <= d,
    ;
}

/// One amount is below another exactly when its total in cents is below the
/// other's; so `a < b` agrees with `a.as_cents() < b.as_cents()` wherever
/// both are defined.
pub proof fn lemma_less_by_cents(a: Money, b: Money)
    ensures
        a.is_lt(&b) <==> a.total_cents() < b.total_cents(),
        a.is_le(&b) <==> a.total_cents() <= b.total_cents(),
        a.is_gt(&b) <==> a.total_cents() > b.total_cents(),
        a.is_ge(&b) <==> a.total_cents() >= b.total_cents(),
{
}

/// Two well-formed amounts that are each at most the other are equal.
pub proof fn lemma_order_antisymmetric(a: Money, b: Money)
    requires
        a.wf(),
        b.wf(),
        a.is_le(&b),
        b.is_le(&a),
    ensures
        a.is_eq(&b),
{
    lemma_magnitude_determines(a, b);
}

/// Reading back the text of a well-formed amount gives the same amount,
/// unless the amount is negative and its options hide the sign, or it is not
/// negative and shows `-` or `(` as its symbol.
pub proof fn lemma_text_round_trip(m: Money)
    requires
        m.wf(),
        m.sign() == MoneySign::Negative ==> m.display_options().negative_view()
            != NegativeView::Hide,
        m.sign() == MoneySign::Positive && m.display_options().show_symbol() ==> {
            &&& m.display_options().symbol() != '-'
            &&& m.display_options().symbol() != '('
        },
    ensures
        parse_text(m.text()) matches Some(p) && forall|r: Money| #[trigger]
            r.is_read_from(p) ==> r.is_eq(&m),
{
    let o = m.display_options();
    let number = number_text(m.dollars() as nat, m.cents() as nat);
    lemma_number_text_reads_back(m.dollars() as nat, m.cents() as nat);
    let body = if o.show_symbol() {
        seq![o.symbol()] + number
    } else {
        number
    };
    if o.show_symbol() {
        assert(body.drop_first() =~= number);
    }
    if m.sign() == MoneySign::Negative {
        if o.negative_view() == NegativeView::Minus {
            assert(m.text().drop_first() =~= body);
        } else {
            assert(m.text().subrange(1, m.text().len() - 1) =~= body);
        }
    }
}

/// The order of amounts is transitive.
pub proof fn lemma_order_transitive(a: Money, b: Money, c: Money)
    ensures
        a.is_lt(&b) && b.is_lt(&c) ==> a.is_lt(&c),
        a.is_le(&b) && b.is_le(&c) ==> a.is_le(&c),
{
}

} // verus!
