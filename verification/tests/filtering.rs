use exchange_ledger::{exchanges, exchanges_in_currency, Amount, Row, State, Type};

fn row(kind: Type, description: &str, currency: &str) -> Row {
    Row {
        kind,
        started_date: "2021-12-31 17:54:48".to_string(),
        completed_date: None,
        description: description.to_string(),
        amount: Amount::new(100, 2).unwrap(),
        fee: Amount::zero(),
        currency: currency.to_string(),
        original_amount: Amount::new(100, 2).unwrap(),
        original_currency: currency.to_string(),
        settled_amount: None,
        settled_currency: None,
        state: State::Completed,
        balance: None,
    }
}

fn ledger() -> Vec<Row> {
    vec![
        row(Type::Exchange, "Exchanged to ETH", "SEK"),
        row(Type::Topup, "Top-Up by *1234", "SEK"),
        row(Type::Exchange, "Exchanged from SEK", "ETH"),
        row(Type::CardPayment, "ETH Coffee", "ETH"),
        row(Type::Exchange, "Exchanged to EOS", "DOGE"),
        row(Type::Transfer, "To ETH wallet", "ETH"),
        row(Type::Exchange, "Exchanged from DOGE", "EOS"),
        row(Type::Cashback, "Cashback", "SEK"),
    ]
}

#[test]
fn exchanges_keeps_exchange_legs_in_order() {
    let all = ledger();
    let kept = exchanges(all.clone());
    assert_eq!(kept, vec![all[0].clone(), all[2].clone(), all[4].clone(), all[6].clone()]);
}

#[test]
fn exchanges_of_nothing() {
    assert!(exchanges(Vec::new()).is_empty());
    assert!(exchanges_in_currency(Vec::new(), &"ETH".to_string()).is_empty());
    let none = vec![row(Type::Topup, "Exchanged to ETH", "ETH")];
    assert!(exchanges(none.clone()).is_empty());
    assert!(exchanges_in_currency(none, &"ETH".to_string()).is_empty());
}

#[test]
fn currency_filter_keeps_by_currency_or_description() {
    let all = ledger();
    let kept = exchanges_in_currency(all.clone(), &"ETH".to_string());
    // The first leg is held in SEK, but its description names ETH.
    assert_eq!(kept, vec![all[0].clone(), all[2].clone()]);

    let kept = exchanges_in_currency(all.clone(), &"DOGE".to_string());
    assert_eq!(kept, vec![all[4].clone(), all[6].clone()]);

    let kept = exchanges_in_currency(all.clone(), &"SEK".to_string());
    assert_eq!(kept, vec![all[0].clone(), all[2].clone()]);
}

#[test]
fn currency_filter_drops_legs_with_neither() {
    let all = ledger();
    assert!(exchanges_in_currency(all, &"BTC".to_string()).is_empty());
    let leg = row(Type::Exchange, "Exchanged to EOS", "DOGE");
    assert!(exchanges_in_currency(vec![leg.clone()], &"SEK".to_string()).is_empty());
    assert!(!leg.concerns(&"SEK".to_string()));
    assert!(leg.concerns(&"EOS".to_string()));
    assert!(leg.concerns(&"DOGE".to_string()));
}

#[test]
fn currency_filter_drops_other_kinds() {
    let payment = row(Type::CardPayment, "Exchanged to ETH", "ETH");
    assert!(!payment.is_exchange());
    assert!(!payment.concerns(&"ETH".to_string()));
    assert!(row(Type::Exchange, "", "ETH").is_exchange());
    assert!(!row(Type::Transfer, "", "ETH").is_exchange());
    assert!(!row(Type::Cashback, "", "ETH").is_exchange());
    assert!(!row(Type::Topup, "", "ETH").is_exchange());
}
