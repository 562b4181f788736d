use gateway::ledger::Ledger;
use gateway::ledger::TransactionDirection;

#[test]
fn ledger_amount_string_survives_a_round_trip() {
    let mut ledger = Ledger::new();
    ledger.add_transaction("tok", "30", TransactionDirection::Outgoing);
    let page = ledger.get_transactions(None, None);
    assert_eq!(page.data.len(), 1);
    assert_eq!(page.data[0].amount.as_str(), "30");
}

#[test]
fn transactions_list_newest_first() {
    let mut ledger = Ledger::new();
    ledger.add_transaction("first", "1", TransactionDirection::Outgoing);
    ledger.add_transaction("second", "2", TransactionDirection::Incoming);
    ledger.add_transaction("third", "3", TransactionDirection::Outgoing);
    let page = ledger.get_transactions(None, None);
    assert_eq!(page.data.len(), 3);
    assert_eq!(page.data[0].token.as_str(), "third");
    assert_eq!(page.data[1].token.as_str(), "second");
    assert_eq!(page.data[2].token.as_str(), "first");
    assert_eq!(page.pagination.total, 3);
    assert_eq!(page.pagination.page, 1);
    assert_eq!(page.pagination.page_size, 10);
    assert_eq!(page.pagination.total_pages, 1);
}

#[test]
fn credits_list_oldest_first() {
    let mut ledger = Ledger::new();
    ledger.add_credit("a", "1");
    ledger.add_credit("b", "2");
    let page = ledger.get_credits(None, None);
    assert_eq!(page.data.len(), 2);
    assert_eq!(page.data[0].token.as_str(), "a");
    assert_eq!(page.data[1].token.as_str(), "b");
    assert!(!page.data[0].redeemed);
    assert!(!page.data[1].redeemed);
}

#[test]
fn pages_cut_the_rows_at_the_offset() {
    let mut ledger = Ledger::new();
    for i in 0..25 {
        let token = format!("c{}", i);
        ledger.add_credit(token.as_str(), "1");
    }
    let page = ledger.get_credits(Some(3), Some(10));
    assert_eq!(page.data.len(), 5);
    assert_eq!(page.data[0].token.as_str(), "c20");
    assert_eq!(page.data[4].token.as_str(), "c24");
    assert_eq!(page.pagination.total_pages, 3);
    let beyond = ledger.get_credits(Some(4), Some(10));
    assert_eq!(beyond.data.len(), 0);
}

#[test]
fn transaction_pages_follow_creation_order_backwards() {
    let mut ledger = Ledger::new();
    for i in 0..12 {
        let token = format!("t{}", i);
        ledger.add_transaction(token.as_str(), "1", TransactionDirection::Outgoing);
    }
    let second = ledger.get_transactions(Some(2), Some(5));
    assert_eq!(second.data.len(), 5);
    assert_eq!(second.data[0].token.as_str(), "t6");
    assert_eq!(second.data[4].token.as_str(), "t2");
}

#[test]
fn direction_parse_fails_closed() {
    assert!(matches!(
        TransactionDirection::parse("Incoming"),
        Some(TransactionDirection::Incoming)
    ));
    assert!(matches!(
        TransactionDirection::parse("Outgoing"),
        Some(TransactionDirection::Outgoing)
    ));
    assert!(TransactionDirection::parse("outgoing").is_none());
    assert!(TransactionDirection::parse("").is_none());
    assert!(TransactionDirection::parse("Sideways").is_none());
}

#[test]
fn ledger_rows_get_distinct_ids() {
    let mut ledger = Ledger::new();
    let a = ledger.add_transaction("x", "1", TransactionDirection::Outgoing);
    let b = ledger.add_transaction("y", "2", TransactionDirection::Incoming);
    assert_ne!(a, b);
    assert!(a.starts_with("txn_"));
    assert_eq!(a.len(), "txn".len() + 33);
}

#[test]
fn a_page_past_the_newest_rows_is_empty() {
    let mut ledger = Ledger::new();
    ledger.add_transaction("only", "1", TransactionDirection::Outgoing);
    let page = ledger.get_transactions(Some(2), Some(10));
    assert!(page.data.is_empty());
    assert_eq!(page.pagination.total, 1);
    assert_eq!(page.pagination.total_pages, 1);
}
