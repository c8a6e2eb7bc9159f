use exchange_ledger::amount::{MAX_MANTISSA, MAX_SCALE};
use exchange_ledger::{Amount, Row, State, Type};
use rust_decimal::Decimal;
use std::str::FromStr;

fn parse(text: &str) -> Amount {
    let d = Decimal::from_str(text).unwrap();
    Amount::new(d.mantissa(), d.scale()).unwrap()
}

fn row_with(amount: Amount, fee: Amount) -> Row {
    Row {
        kind: Type::Exchange,
        started_date: String::new(),
        completed_date: None,
        description: String::new(),
        amount,
        fee,
        currency: String::new(),
        original_amount: amount,
        original_currency: String::new(),
        settled_amount: None,
        settled_currency: None,
        state: State::Completed,
        balance: None,
    }
}

#[test]
fn limits_of_an_amount() {
    assert_eq!(MAX_MANTISSA, (1i128 << 96) - 1);
    assert_eq!(MAX_SCALE, 28);
    assert_eq!(MAX_SCALE, Decimal::MAX_SCALE);
    assert_eq!(MAX_MANTISSA, Decimal::MAX.mantissa());
    assert_eq!(-MAX_MANTISSA, Decimal::MIN.mantissa());
}

#[test]
fn new_accepts_what_fits() {
    let a = Amount::new(-90_090_603_463, 8).unwrap();
    assert_eq!(a.mantissa(), -90_090_603_463);
    assert_eq!(a.scale(), 8);
    assert!(Amount::new(MAX_MANTISSA, 0).is_some());
    assert!(Amount::new(-MAX_MANTISSA, 28).is_some());
    assert!(Amount::new(0, 28).is_some());
}

#[test]
fn new_refuses_what_does_not_fit() {
    assert_eq!(Amount::new(MAX_MANTISSA + 1, 0), None);
    assert_eq!(Amount::new(-MAX_MANTISSA - 1, 0), None);
    assert_eq!(Amount::new(i128::MAX, 0), None);
    assert_eq!(Amount::new(i128::MIN, 0), None);
    assert_eq!(Amount::new(1, 29), None);
    assert_eq!(Amount::new(1, u32::MAX), None);
}

#[test]
fn zero_has_no_digits() {
    assert_eq!(Amount::zero().mantissa(), 0);
    assert_eq!(Amount::zero().scale(), 0);
    assert_eq!(Some(Amount::zero()), Amount::new(0, 0));
}

#[test]
fn sums_keep_the_finer_scale() {
    assert_eq!(parse("40").checked_add(parse("-0.06")), Some(parse("39.94")));
    assert_eq!(parse("-5000.45").checked_add(parse("-80.15")), Some(parse("-5080.60")));
    assert_eq!(parse("-900.90603463").checked_add(parse("-20.36495977")), Some(parse("-921.27099440")));
    assert_eq!(parse("-921.27099440").mantissa(), -92_127_099_440);
    assert_eq!(parse("-921.27099440").scale(), 8);
    assert_eq!(parse("2000").checked_add(parse("0")), Some(parse("2000")));
    assert_eq!(parse("1.5").checked_add(parse("-1.5")).unwrap().mantissa(), 0);
}

#[test]
fn sums_agree_with_decimal_addition() {
    let cases = [
        ("40", "-0.06"),
        ("-5000.45", "-80.15"),
        ("0.0000000000000000000000000001", "1"),
        ("79228162514264337593543950335", "-1"),
        ("7922816251426433759354395033.5", "0.05"),
        ("-123456789.123456789", "987654321.987654321"),
    ];
    for (a, b) in cases {
        let expected = Decimal::from_str(a).unwrap() + Decimal::from_str(b).unwrap();
        let sum = parse(a).checked_add(parse(b)).unwrap();
        assert_eq!(sum.mantissa(), expected.mantissa());
        assert_eq!(sum.scale(), expected.scale());
    }
}

#[test]
fn sums_overflow_beyond_the_mantissa() {
    let max = Amount::new(MAX_MANTISSA, 0).unwrap();
    let min = Amount::new(-MAX_MANTISSA, 0).unwrap();
    assert_eq!(max.checked_add(parse("1")), None);
    assert_eq!(min.checked_add(parse("-1")), None);
    assert_eq!(max.checked_add(max), None);
    assert_eq!(max.checked_add(min).unwrap().mantissa(), 0);
    assert_eq!(max.checked_add(parse("-1")).unwrap().mantissa(), MAX_MANTISSA - 1);
}

#[test]
fn net_is_amount_plus_fee() {
    assert_eq!(row_with(parse("40"), parse("-0.06")).net(), Some(parse("39.94")));
    assert_eq!(row_with(parse("-20"), parse("0")).net(), Some(parse("-20")));
    assert_eq!(row_with(parse("-5000.45"), parse("-80.15")).net(), Some(parse("-5080.60")));
    assert_eq!(row_with(Amount::new(MAX_MANTISSA, 0).unwrap(), parse("1")).net(), None);
}
