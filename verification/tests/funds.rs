use prize::ledger::Ledger;
use prize::pubkey::Pubkey;

fn party(tag: u8) -> Pubkey {
    Pubkey::new_from_array([tag; 32])
}

#[test]
fn a_new_ledger_is_empty() {
    let ledger = Ledger::new(25);
    assert_eq!(ledger.deposit(), 25);
    assert_eq!(ledger.clock(), 0);
    assert_eq!(ledger.config(), None);
    assert_eq!(ledger.supply(), 0);
    assert_eq!(ledger.balance(&party(1)), 0);
    assert!(ledger.bounty(0).is_none());
    assert!(ledger.bounty(1).is_none());
    assert!(ledger.events().is_empty());
}

#[test]
fn the_clock_is_set() {
    let mut ledger = Ledger::new(0);
    ledger.set_clock(-5);
    assert_eq!(ledger.clock(), -5);
    ledger.set_clock(i64::MAX);
    assert_eq!(ledger.clock(), i64::MAX);
    assert_eq!(ledger.deposit(), 0);
}

#[test]
fn funding_adds_to_one_balance() {
    let mut ledger = Ledger::new(0);
    assert!(ledger.fund(party(1), 40));
    assert!(ledger.fund(party(2), 2));
    assert!(ledger.fund(party(1), 60));
    assert_eq!(ledger.balance(&party(1)), 100);
    assert_eq!(ledger.balance(&party(2)), 2);
    assert_eq!(ledger.balance(&party(3)), 0);
    assert_eq!(ledger.supply(), 102);
}

#[test]
fn funding_stops_where_the_supply_would_not_fit() {
    let mut ledger = Ledger::new(0);
    assert!(ledger.fund(party(1), u64::MAX - 1));
    assert!(!ledger.fund(party(2), 2));
    assert_eq!(ledger.balance(&party(2)), 0);
    assert_eq!(ledger.supply(), u64::MAX - 1);
    assert!(ledger.fund(party(2), 1));
    assert_eq!(ledger.balance(&party(2)), 1);
    assert_eq!(ledger.supply(), u64::MAX);
    assert!(!ledger.fund(party(1), 1));
    assert!(ledger.fund(party(1), 0));
    assert_eq!(ledger.balance(&party(1)), u64::MAX - 1);
}
