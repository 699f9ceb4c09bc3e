use nmoney::{Money, MoneySign, NegativeView};

#[test]
fn positive_plus_positive() {
    let m1 = Money::new(4, 56, MoneySign::Positive).unwrap();
    let m2 = Money::new(12, 49, MoneySign::Positive).unwrap();

    assert_eq!(m1 + m2, Money::new(17, 5, MoneySign::Positive).unwrap());
}

#[test]
fn positive_plus_negative() {
    let m1 = Money::new(4, 56, MoneySign::Positive).unwrap();
    let m2 = Money::new(12, 49, MoneySign::Negative).unwrap();

    assert_eq!(m1 + m2, Money::new(7, 93, MoneySign::Negative).unwrap());
}

#[test]
fn negative_plus_positive() {
    let m1 = Money::new(4, 56, MoneySign::Negative).unwrap();
    let m2 = Money::new(12, 49, MoneySign::Positive).unwrap();

    assert_eq!(m1 + m2, Money::new(7, 93, MoneySign::Positive).unwrap());
}

#[test]
fn negative_plus_negative() {
    let m1 = Money::new(4, 56, MoneySign::Negative).unwrap();
    let m2 = Money::new(12, 49, MoneySign::Negative).unwrap();

    assert_eq!(m1 + m2, Money::new(17, 5, MoneySign::Negative).unwrap());
}

#[test]
fn positive_minus_positive() {
    let m1 = Money::new(4, 56, MoneySign::Positive).unwrap();
    let m2 = Money::new(12, 49, MoneySign::Positive).unwrap();

    assert_eq!(m1 - m2, Money::new(7, 93, MoneySign::Negative).unwrap());
}

#[test]
fn positive_minus_negative() {
    let m1 = Money::new(4, 56, MoneySign::Positive).unwrap();
    let m2 = Money::new(12, 49, MoneySign::Negative).unwrap();

    assert_eq!(m1 - m2, Money::new(17, 5, MoneySign::Positive).unwrap());
}

#[test]
fn negative_minus_positive() {
    let m1 = Money::new(4, 56, MoneySign::Negative).unwrap();
    let m2 = Money::new(12, 49, MoneySign::Positive).unwrap();

    assert_eq!(m1 - m2, Money::new(17, 5, MoneySign::Negative).unwrap());
}

#[test]
fn negative_minus_negative() {
    let m1 = Money::new(4, 56, MoneySign::Negative).unwrap();
    let m2 = Money::new(12, 49, MoneySign::Negative).unwrap();

    assert_eq!(m1 - m2, Money::new(7, 93, MoneySign::Positive).unwrap());
}

#[test]
fn negate() {
    let m = Money::new(15, 30, MoneySign::Positive).unwrap();
    let m2 = -m;

    assert_eq!(m2, Money::new(15, 30, MoneySign::Negative).unwrap());
}

#[test]
fn as_cents() {
    let m = Money::new(15, 30, MoneySign::Negative).unwrap();

    assert_eq!(m.as_cents().unwrap(), -1530);
}

#[test]
fn add_assign() {
    let m1 = Money::new(4, 56, MoneySign::Positive).unwrap();
    let mut m2 = Money::new(12, 49, MoneySign::Positive).unwrap();

    m2.add_assign(m1);

    assert_eq!(m2, Money::new(17, 5, MoneySign::Positive).unwrap());
}

#[test]
fn sub_assign() {
    let m1 = Money::new(4, 56, MoneySign::Positive).unwrap();
    let mut m2 = Money::new(12, 49, MoneySign::Positive).unwrap();

    m2.sub_assign(m1);

    assert_eq!(m2, Money::new(7, 93, MoneySign::Positive).unwrap());
}

#[test]
fn less_than() {
    let m1 = Money::new(4, 56, MoneySign::Positive).unwrap();
    let m2 = Money::new(12, 49, MoneySign::Positive).unwrap();

    let e1 = m1 < m2;
    let e2 = m1 > m2;

    assert!(e1 && !e2);
}

#[test]
fn less_than_or_equal() {
    let m1 = Money::new(12, 49, MoneySign::Positive).unwrap();
    let m2 = Money::new(12, 49, MoneySign::Positive).unwrap();

    let e1 = m1 <= m2;
    let e2 = m1 >= m2;

    assert!(e1 && e2);
}

#[test]
fn greater_than() {
    let m1 = Money::new(4, 56, MoneySign::Positive).unwrap();
    let m2 = Money::new(12, 49, MoneySign::Positive).unwrap();

    let e1 = m2 > m1;
    let e2 = m2 < m1;

    assert!(e1 && !e2);
}

#[test]
fn greater_than_or_equal() {
    let m1 = Money::new(12, 50, MoneySign::Positive).unwrap();
    let m2 = Money::new(12, 49, MoneySign::Positive).unwrap();

    let e1 = m1 >= m2;
    let e2 = m1 <= m2;

    assert!(e1 && !e2);
}

#[test]
fn equal_to() {
    let m1 = Money::new(12, 49, MoneySign::Positive).unwrap();
    let m2 = Money::new(12, 49, MoneySign::Positive).unwrap();

    assert!(m1 == m2);
}

#[test]
fn to_string_default() {
    let m = Money::new(12, 29, MoneySign::Positive).unwrap();

    assert_eq!(m.to_string(), "$12.29");
}

#[test]
fn to_string_new_symbol() {
    let mut m = Money::new(12, 29, MoneySign::Positive).unwrap();
    m.options().set_symbol('#');

    assert_eq!(m.to_string(), "#12.29");
}

#[test]
fn to_string_neg_minus() {
    let m = Money::new(12, 29, MoneySign::Negative).unwrap();

    assert_eq!(m.to_string(), "-$12.29");
}

#[test]
fn to_string_neg_paren() {
    let mut m = Money::new(12, 29, MoneySign::Negative).unwrap();
    m.options().set_negative_view(NegativeView::Paren);

    assert_eq!(m.to_string(), "($12.29)");
}

#[test]
fn to_string_neg_hide() {
    let mut m = Money::new(12, 29, MoneySign::Negative).unwrap();
    m.options().set_negative_view(NegativeView::Hide);

    assert_eq!(m.to_string(), "$12.29");
}

#[test]
fn from_cents() {
    let m = Money::new(5, 76, MoneySign::Positive).unwrap();

    assert_eq!(m, Money::from_cents(576));
}

#[test]
fn set_symbol_valid() {
    let mut m = Money::new(5, 76, MoneySign::Positive).unwrap();

    assert!(m.options().set_symbol('#'));
}

#[test]
fn set_symbol_invalid() {
    let mut m = Money::new(5, 76, MoneySign::Positive).unwrap();

    assert!(!m.options().set_symbol('1'));
}

#[test]
fn from_str_pos_no_symbol() {
    let m1 = Money::new(5, 34, MoneySign::Positive).unwrap();
    let m2 = Money::from_str("5.34").unwrap();

    assert!(
        m1 == m2
            && m2.options_immutable().symbol() == '$'
            && m2.options_immutable().show_symbol() == false
    );
}

#[test]
fn from_str_pos_symbol() {
    let m1 = Money::new(5, 34, MoneySign::Positive).unwrap();
    let m2 = Money::from_str("$5.34").unwrap();

    assert!(
        m1 == m2
            && m2.options_immutable().symbol() == '$'
            && m2.options_immutable().show_symbol() == true
    );
}

#[test]
fn from_str_minus_no_symbol() {
    let m1 = Money::new(5, 34, MoneySign::Negative).unwrap();
    let m2 = Money::from_str("-5.34").unwrap();

    assert!(
        m1 == m2
            && m2.options_immutable().symbol() == '$'
            && m2.options_immutable().show_symbol() == false
            && m2.options_immutable().negative_view() == NegativeView::Minus
    );
}

#[test]
fn from_str_minus_symbol() {
    let m1 = Money::new(5, 34, MoneySign::Negative).unwrap();
    let m2 = Money::from_str("-$5.34").unwrap();

    assert!(
        m1 == m2
            && m2.options_immutable().symbol() == '$'
            && m2.options_immutable().show_symbol() == true
            && m2.options_immutable().negative_view() == NegativeView::Minus
    );
}

#[test]
fn from_str_paren_no_symbol() {
    let m1 = Money::new(5, 34, MoneySign::Negative).unwrap();
    let m2 = Money::from_str("(5.34)").unwrap();

    assert!(
        m1 == m2
            && m2.options_immutable().symbol() == '$'
            && m2.options_immutable().show_symbol() == false
            && m2.options_immutable().negative_view() == NegativeView::Paren
    );
}

#[test]
fn from_str_paren_symbol() {
    let m1 = Money::new(5, 34, MoneySign::Negative).unwrap();
    let m2 = Money::from_str("($5.34)").unwrap();

    assert!(
        m1 == m2
            && m2.options_immutable().symbol() == '$'
            && m2.options_immutable().show_symbol() == true
            && m2.options_immutable().negative_view() == NegativeView::Paren
    );
}

#[test]
fn from_str_pos_diff_symbol() {
    let m1 = Money::new(5, 34, MoneySign::Positive).unwrap();
    let m2 = Money::from_str("£5.34").unwrap();

    assert!(
        m1 == m2
            && m2.options_immutable().symbol() == '£'
            && m2.options_immutable().show_symbol() == true
    );
}

#[test]
fn invalid_money_cents() {
    match Money::new(5, 101, MoneySign::Positive) {
        Ok(_) => {
            assert!(false);
        }
        Err(_) => {
            assert!(true);
        }
    }
}

#[test]
fn invalid_money_string() {
    match Money::from_str("$a.00") {
        Ok(_) => {
            assert!(false);
        }
        Err(_) => {
            assert!(true);
        }
    }
}

#[test]
fn copy_options() {
    let mut src = Money::new(5, 25, MoneySign::Negative).unwrap();
    let mut dest = Money::new(10, 50, MoneySign::Negative).unwrap();

    src.options().set_symbol('#');
    src.options().set_negative_view(NegativeView::Paren);

    Money::copy_options(&mut dest, &src);

    assert!(
        dest.options_immutable().symbol() == src.options_immutable().symbol()
            && dest.options_immutable().show_symbol() == src.options_immutable().show_symbol()
            && dest.options_immutable().negative_view() == src.options_immutable().negative_view()
    );
}
