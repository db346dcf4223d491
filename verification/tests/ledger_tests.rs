use ledger::record::{kind_of_tag, same_bytes};
use ledger::{Account, AccountSummary, Amount, DisputeState, Error, Operation, Store, TxType};
use rust_decimal::Decimal;

/// Helper to create a decimal amount.
fn d(s: &str) -> Amount {
    let x: Decimal = s.parse().expect("invalid decimal");
    Amount::new(x.mantissa(), x.scale()).expect("invalid amount")
}

const MAX: i128 = 79_228_162_514_264_337_593_543_950_335;

#[test]
fn simple_test() {
    let mut store = Store::new();
    let mut txid = 0; // an incrementing txid counter

    // The account ID we will use for our test user.
    const ACC: u16 = 100;

    // do a deposit
    txid += 1;
    store.handle_deposit(txid, ACC, d("5.12345")).unwrap();
    assert_eq!(
        store.get_account(ACC).summary(),
        AccountSummary {
            client: ACC,
            available: d("5.12345"),
            held: d("0"),
            total: d("5.12345"),
            locked: false,
        }
    );

    // withdraw too much
    let ret = store.handle_withdrawal(txid, ACC, d("6")).unwrap_err();
    assert_eq!(ret, Error::InsufficientFunds { available: d("5.12345"), required: d("6") });

    // do a withdrawal
    txid += 1;
    store.handle_withdrawal(txid, ACC, d("4.01")).unwrap();
    assert_eq!(
        store.get_account(ACC).summary(),
        AccountSummary {
            client: ACC,
            available: d("1.11345"),
            held: d("0"),
            total: d("1.11345"),
            locked: false,
        }
    );

    // do another deposit
    txid += 1;
    store.handle_deposit(txid, ACC, d("3")).unwrap();
    assert_eq!(
        store.get_account(ACC).summary(),
        AccountSummary {
            client: ACC,
            available: d("4.11345"),
            held: d("0"),
            total: d("4.11345"),
            locked: false,
        }
    );
    let deposit_txid = txid;

    // dispute a non-existing tx
    assert_eq!(store.handle_dispute(ACC, 7).unwrap_err(), Error::TxNotFound { txid: 7 });

    // dispute it
    store.handle_dispute(ACC, deposit_txid).unwrap();
    assert_eq!(
        store.get_account(ACC).summary(),
        AccountSummary {
            client: ACC,
            available: d("1.11345"),
            held: d("3"),
            total: d("4.11345"),
            locked: false,
        }
    );

    // dispute it again
    let ret = store.handle_dispute(ACC, deposit_txid).unwrap_err();
    assert_eq!(
        ret,
        Error::TxInWrongState {
            txid: deposit_txid,
            action: TxType::Dispute,
            state: DisputeState::Disputed,
        }
    );

    // resolve it
    store.handle_resolve(ACC, deposit_txid).unwrap();
    assert_eq!(
        store.get_account(ACC).summary(),
        AccountSummary {
            client: ACC,
            available: d("4.11345"),
            held: d("0"),
            total: d("4.11345"),
            locked: false,
        }
    );

    // dispute it again
    let ret = store.handle_dispute(ACC, deposit_txid).unwrap_err();
    assert_eq!(
        ret,
        Error::TxInWrongState {
            txid: deposit_txid,
            action: TxType::Dispute,
            state: DisputeState::Resolved,
        }
    );
    // resolve it again
    let ret = store.handle_resolve(ACC, deposit_txid).unwrap_err();
    assert_eq!(
        ret,
        Error::TxInWrongState {
            txid: deposit_txid,
            action: TxType::Resolve,
            state: DisputeState::Resolved,
        }
    );

    // chargeback it
    let ret = store.handle_chargeback(ACC, deposit_txid).unwrap_err();
    assert_eq!(
        ret,
        Error::TxInWrongState {
            txid: deposit_txid,
            action: TxType::Chargeback,
            state: DisputeState::Resolved,
        }
    );

    // do another deposit
    txid += 1;
    store.handle_deposit(txid, ACC, d("9")).unwrap();
    assert_eq!(
        store.get_account(ACC).summary(),
        AccountSummary {
            client: ACC,
            available: d("13.11345"),
            held: d("0"),
            total: d("13.11345"),
            locked: false,
        }
    );
    let deposit_txid = txid;

    // dispute it
    store.handle_dispute(ACC, deposit_txid).unwrap();
    assert_eq!(
        store.get_account(ACC).summary(),
        AccountSummary {
            client: ACC,
            available: d("4.11345"),
            held: d("9"),
            total: d("13.11345"),
            locked: false,
        }
    );

    // charge it back
    store.handle_chargeback(ACC, deposit_txid).unwrap();
    assert_eq!(
        store.get_account(ACC).summary(),
        AccountSummary {
            client: ACC,
            available: d("4.11345"),
            held: d("0"),
            total: d("4.11345"),
            locked: true,
        }
    );

    // charge it back again
    let ret = store.handle_chargeback(ACC, deposit_txid).unwrap_err();
    assert_eq!(
        ret,
        Error::TxInWrongState {
            txid: deposit_txid,
            action: TxType::Chargeback,
            state: DisputeState::ChargedBack,
        }
    );
}

#[test]
fn deposit_reports_the_new_summary() {
    let mut store = Store::new();
    let summary = store.handle_deposit(1, 100, d("5.12345")).unwrap();
    assert_eq!(
        summary,
        AccountSummary {
            client: 100,
            available: d("5.12345"),
            held: d("0"),
            total: d("5.12345"),
            locked: false,
        }
    );
}

#[test]
fn withdrawal_beyond_available_is_refused_and_changes_nothing() {
    let mut store = Store::new();
    store.handle_deposit(1, 100, d("5.12345")).unwrap();
    let before = store.get_account(100);
    let ret = store.handle_withdrawal(1, 100, d("6"));
    assert_eq!(ret, Err(Error::InsufficientFunds { available: d("5.12345"), required: d("6") }));
    assert_eq!(store.get_account(100), before);
    // the deposit recorded under the same id is still there to be disputed
    assert!(store.handle_dispute(100, 1).is_ok());
}

#[test]
fn chargeback_empties_held_and_locks() {
    let mut store = Store::new();
    store.handle_deposit(1, 100, d("5.12345")).unwrap();
    let before = store.handle_deposit(3, 100, d("3")).unwrap();
    assert_eq!(before.available, d("8.12345"));
    store.handle_dispute(100, 3).unwrap();
    let after = store.handle_chargeback(100, 3).unwrap();
    assert_eq!(
        after,
        AccountSummary {
            client: 100,
            available: d("5.12345"),
            held: d("0"),
            total: d("5.12345"),
            locked: true,
        }
    );
    assert_eq!(
        store.handle_chargeback(100, 3),
        Err(Error::TxInWrongState {
            txid: 3,
            action: TxType::Chargeback,
            state: DisputeState::ChargedBack,
        })
    );
}

#[test]
fn dispute_of_unknown_transaction_is_refused() {
    let mut store = Store::new();
    assert_eq!(store.handle_dispute(100, 999), Err(Error::TxNotFound { txid: 999 }));
    assert_eq!(store.handle_resolve(100, 999), Err(Error::TxNotFound { txid: 999 }));
    assert_eq!(store.handle_chargeback(100, 999), Err(Error::TxNotFound { txid: 999 }));
}

#[test]
fn refused_operation_creates_no_account() {
    let mut store = Store::new();
    assert!(store.handle_withdrawal(1, 7, d("1")).is_err());
    assert!(store.handle_dispute(8, 1).is_err());
    assert_eq!(store.list_accounts(), vec![]);
    assert_eq!(store.get_account(7), Account::new(7));
}

#[test]
fn held_stays_zero_or_more() {
    let mut store = Store::new();
    store.handle_deposit(1, 1, d("10")).unwrap();
    store.handle_deposit(2, 1, d("2.5")).unwrap();
    assert!(store.get_account(1).held.is_sign_positive());
    store.handle_dispute(1, 1).unwrap();
    assert_eq!(store.get_account(1).held, d("10"));
    store.handle_dispute(1, 2).unwrap();
    assert_eq!(store.get_account(1).held, d("12.5"));
    store.handle_resolve(1, 1).unwrap();
    assert_eq!(store.get_account(1).held, d("2.5"));
    store.handle_chargeback(1, 2).unwrap();
    assert_eq!(store.get_account(1).held, d("0.0"));
    assert!(store.get_account(1).held.is_sign_positive());
    assert_eq!(store.get_account(1).available, d("10"));
}

#[test]
fn wrong_state_leaves_the_summary_as_it_was() {
    let mut store = Store::new();
    store.handle_deposit(1, 5, d("4.2")).unwrap();
    let before = store.get_account(5).summary();
    assert_eq!(
        store.handle_resolve(5, 1),
        Err(Error::TxInWrongState { txid: 1, action: TxType::Resolve, state: DisputeState::Normal })
    );
    assert_eq!(store.get_account(5).summary(), before);
    assert_eq!(
        store.handle_chargeback(5, 1),
        Err(Error::TxInWrongState {
            txid: 1,
            action: TxType::Chargeback,
            state: DisputeState::Normal,
        })
    );
    assert_eq!(store.get_account(5).summary(), before);
    store.handle_dispute(5, 1).unwrap();
    let disputed = store.get_account(5).summary();
    assert_eq!(
        store.handle_dispute(5, 1),
        Err(Error::TxInWrongState {
            txid: 1,
            action: TxType::Dispute,
            state: DisputeState::Disputed,
        })
    );
    assert_eq!(store.get_account(5).summary(), disputed);
}

#[test]
fn locked_account_stays_locked() {
    let mut store = Store::new();
    store.handle_deposit(1, 9, d("1")).unwrap();
    store.handle_deposit(2, 9, d("2")).unwrap();
    store.handle_dispute(9, 1).unwrap();
    assert!(store.handle_chargeback(9, 1).unwrap().locked);
    assert!(store.handle_deposit(3, 9, d("5")).unwrap().locked);
    assert!(store.handle_withdrawal(4, 9, d("1")).unwrap().locked);
    assert!(store.handle_dispute(9, 2).unwrap().locked);
    assert!(store.handle_resolve(9, 2).unwrap().locked);
    assert!(store.handle_withdrawal(5, 9, d("100")).is_err());
    assert!(store.get_account(9).locked);
}

#[test]
fn dispute_then_resolve_restores_the_balances() {
    let mut store = Store::new();
    store.handle_deposit(1, 2, d("0.0001")).unwrap();
    let before = store.handle_deposit(2, 2, d("7.25")).unwrap();
    let during = store.handle_dispute(2, 2).unwrap();
    assert_eq!(during.available, d("0.0001"));
    assert_eq!(during.held, d("7.25"));
    assert_eq!(during.total, d("7.2501"));
    let after = store.handle_resolve(2, 2).unwrap();
    assert_eq!(after.available, before.available);
    assert_eq!(after.held.mantissa, 0);
    assert_eq!(after.total, before.total);
    assert_eq!(after.locked, before.locked);
}

#[test]
fn dispute_without_funds_does_not_mark_the_transaction() {
    let mut store = Store::new();
    store.handle_deposit(1, 3, d("5")).unwrap();
    store.handle_withdrawal(2, 3, d("4")).unwrap();
    assert_eq!(
        store.handle_dispute(3, 1),
        Err(Error::InsufficientFunds { available: d("1"), required: d("5") })
    );
    store.handle_deposit(3, 3, d("10")).unwrap();
    let summary = store.handle_dispute(3, 1).unwrap();
    assert_eq!(summary.available, d("6"));
    assert_eq!(summary.held, d("5"));
}

#[test]
fn withdrawal_can_be_disputed_like_a_deposit() {
    let mut store = Store::new();
    store.handle_deposit(1, 3, d("5")).unwrap();
    store.handle_withdrawal(2, 3, d("2")).unwrap();
    let summary = store.handle_dispute(3, 2).unwrap();
    assert_eq!(summary.available, d("1"));
    assert_eq!(summary.held, d("2"));
    assert_eq!(summary.total, d("3"));
}

#[test]
fn later_transaction_replaces_one_of_the_same_id() {
    let mut store = Store::new();
    store.handle_deposit(1, 3, d("5")).unwrap();
    store.handle_deposit(1, 3, d("2")).unwrap();
    let summary = store.handle_dispute(3, 1).unwrap();
    assert_eq!(summary.available, d("5"));
    assert_eq!(summary.held, d("2"));
}

#[test]
fn release_from_an_account_that_holds_too_little_is_a_fault() {
    let mut store = Store::new();
    store.handle_deposit(1, 1, d("5")).unwrap();
    store.handle_dispute(1, 1).unwrap();
    let ret = store.handle_resolve(2, 1).unwrap_err();
    assert_eq!(ret, Error::HeldShortfall { held: d("0"), required: d("5") });
    assert!(!ret.is_domain_failure());
    let ret = store.handle_chargeback(2, 1).unwrap_err();
    assert_eq!(ret, Error::HeldShortfall { held: d("0"), required: d("5") });
    // nothing was marked: the owner can still resolve
    assert_eq!(store.handle_resolve(1, 1).unwrap().available, d("5"));
    assert_eq!(store.list_accounts().len(), 1);
}

#[test]
fn balance_out_of_range_is_a_fault() {
    let mut store = Store::new();
    let most = Amount::new(MAX, 0).unwrap();
    store.handle_deposit(1, 1, most).unwrap();
    let before = store.get_account(1);
    let ret = store.handle_deposit(2, 1, most).unwrap_err();
    assert_eq!(ret, Error::OutOfRange);
    assert!(!ret.is_domain_failure());
    assert_eq!(store.get_account(1), before);
    assert_eq!(store.handle_dispute(1, 2), Err(Error::TxNotFound { txid: 2 }));
    // the total of available and held must have a representation too
    store.handle_deposit(3, 2, most).unwrap();
    store.handle_dispute(2, 3).unwrap();
    assert_eq!(store.handle_deposit(4, 2, most), Err(Error::OutOfRange));
}

#[test]
fn domain_failures_are_told_from_faults() {
    assert!(Error::InsufficientFunds { available: d("1"), required: d("2") }.is_domain_failure());
    assert!(Error::TxNotFound { txid: 1 }.is_domain_failure());
    assert!(Error::TxInWrongState {
        txid: 1,
        action: TxType::Dispute,
        state: DisputeState::Resolved
    }
    .is_domain_failure());
    assert!(!Error::HeldShortfall { held: d("1"), required: d("2") }.is_domain_failure());
    assert!(!Error::OutOfRange.is_domain_failure());
}

#[test]
fn accounts_are_listed_by_client_id() {
    let mut store = Store::new();
    store.handle_deposit(1, 65535, d("3")).unwrap();
    store.handle_deposit(2, 0, d("1")).unwrap();
    store.handle_deposit(3, 77, d("2")).unwrap();
    store.handle_deposit(4, 77, d("0.5")).unwrap();
    let listed = store.list_accounts();
    assert_eq!(
        listed,
        vec![
            AccountSummary {
                client: 0,
                available: d("1"),
                held: d("0"),
                total: d("1"),
                locked: false
            },
            AccountSummary {
                client: 77,
                available: d("2.5"),
                held: d("0"),
                total: d("2.5"),
                locked: false
            },
            AccountSummary {
                client: 65535,
                available: d("3"),
                held: d("0"),
                total: d("3"),
                locked: false
            },
        ]
    );
    assert_eq!(store.list_accounts(), listed);
}

#[test]
fn apply_runs_the_handler_of_each_kind() {
    let mut store = Store::new();
    let s = store.apply(Operation::Deposit { txid: 1, client: 4, amount: d("10") }).unwrap();
    assert_eq!(s.available, d("10"));
    let s = store.apply(Operation::Withdrawal { txid: 2, client: 4, amount: d("2.5") }).unwrap();
    assert_eq!(s.available, d("7.5"));
    let s = store.apply(Operation::Dispute { client: 4, txid: 2 }).unwrap();
    assert_eq!((s.available, s.held), (d("5.0"), d("2.5")));
    let s = store.apply(Operation::Resolve { client: 4, txid: 2 }).unwrap();
    assert_eq!((s.available, s.held), (d("7.5"), d("0.0")));
    let s = store.apply(Operation::Dispute { client: 4, txid: 1 });
    assert_eq!(
        s,
        Err(Error::InsufficientFunds { available: d("7.5"), required: d("10") })
    );
    store.apply(Operation::Deposit { txid: 3, client: 4, amount: d("2.5") }).unwrap();
    store.apply(Operation::Dispute { client: 4, txid: 1 }).unwrap();
    let s = store.apply(Operation::Chargeback { client: 4, txid: 1 }).unwrap();
    assert_eq!((s.available, s.held, s.locked), (d("0.0"), d("0"), true));
}

#[test]
fn sum_is_the_decimal_sum() {
    assert_eq!(d("1.5").checked_add(&d("2.25")), Some(d("3.75")));
    assert_eq!(d("-1.5").checked_add(&d("2.25")), Some(d("0.75")));
    assert_eq!(d("0.00").checked_add(&d("3")), Some(d("3")));
    assert_eq!(d("3").checked_add(&d("0.00")), Some(d("3")));
    let most = Amount::new(MAX, 0).unwrap();
    assert_eq!(most.checked_add(&most), None);
    assert_eq!(most.checked_add(&d("1")), None);
}

#[test]
fn difference_is_the_decimal_difference() {
    assert_eq!(d("5.12345").checked_sub(&d("4.01")), Some(d("1.11345")));
    assert_eq!(d("1").checked_sub(&d("2.5")), Some(d("-1.5")));
    let least = Amount::new(-MAX, 0).unwrap();
    assert_eq!(least.checked_sub(&d("1")), None);
}

#[test]
fn amounts_compare_by_value() {
    assert!(d("1.10").at_least(&d("1.1")));
    assert!(d("1.1").at_least(&d("1.10")));
    assert!(d("2").at_least(&d("1.99999")));
    assert!(!d("1.99999").at_least(&d("2")));
    assert!(!d("-3").at_least(&d("0.0001")));
    assert!(d("0.0001").at_least(&d("-3")));
    assert!(Amount::new(MAX, 0).unwrap().at_least(&Amount::new(MAX, 28).unwrap()));
    assert!(!Amount::new(1, 28).unwrap().at_least(&Amount::new(1, 27).unwrap()));
}

#[test]
fn amount_needs_96_bits_and_28_places() {
    assert_eq!(Amount::new(MAX, 28), Some(Amount { mantissa: MAX, scale: 28 }));
    assert_eq!(Amount::new(-MAX, 0), Some(Amount { mantissa: -MAX, scale: 0 }));
    assert_eq!(Amount::new(MAX + 1, 0), None);
    assert_eq!(Amount::new(-MAX - 1, 0), None);
    assert_eq!(Amount::new(1, 29), None);
    assert_eq!(Amount::from_parts(Some((12, 1))), Some(d("1.2")));
    assert_eq!(Amount::from_parts(Some((12, 40))), None);
    assert_eq!(Amount::from_parts(None), None);
    assert_eq!(Amount::zero(), d("0"));
    assert!(Amount::zero().is_sign_positive());
    assert!(!d("-0.1").is_sign_positive());
}

#[test]
fn need_compares_available_with_the_amount() {
    let account = Account { id: 1, available: d("2.50"), held: d("0"), locked: false };
    assert_eq!(account.need(d("2.5")), Ok(()));
    assert_eq!(
        account.need(d("2.51")),
        Err(Error::InsufficientFunds { available: d("2.50"), required: d("2.51") })
    );
}

#[test]
fn rebalanced_refuses_what_is_no_account() {
    let account = Account::new(3);
    assert_eq!(
        account.rebalanced(Some(d("2")), Some(d("1")), true),
        Some(Account { id: 3, available: d("2"), held: d("1"), locked: true })
    );
    assert_eq!(account.rebalanced(None, Some(d("1")), false), None);
    assert_eq!(account.rebalanced(Some(d("1")), None, false), None);
    assert_eq!(account.rebalanced(Some(d("1")), Some(d("-1")), false), None);
    let most = Amount::new(MAX, 0).unwrap();
    assert_eq!(account.rebalanced(Some(most), Some(most), false), None);
}

#[test]
fn dispute_state_starts_normal() {
    assert_eq!(DisputeState::default(), DisputeState::Normal);
}

#[test]
fn record_words_name_the_kinds() {
    assert_eq!(kind_of_tag("deposit".as_bytes()), Some(TxType::Deposit));
    assert_eq!(kind_of_tag("withdraw".as_bytes()), Some(TxType::Withdrawal));
    assert_eq!(kind_of_tag("dispute".as_bytes()), Some(TxType::Dispute));
    assert_eq!(kind_of_tag("resolve".as_bytes()), Some(TxType::Resolve));
    assert_eq!(kind_of_tag("chargeback".as_bytes()), Some(TxType::Chargeback));
    assert_eq!(kind_of_tag("withdrawal".as_bytes()), None);
    assert_eq!(kind_of_tag("Deposit".as_bytes()), None);
    assert_eq!(kind_of_tag("".as_bytes()), None);
    assert_eq!(kind_of_tag("deposit ".as_bytes()), None);
}

#[test]
fn same_bytes_compares_length_and_content() {
    assert!(same_bytes(&[1, 2, 3], &[1, 2, 3]));
    assert!(!same_bytes(&[1, 2, 3], &[1, 2]));
    assert!(!same_bytes(&[1, 2, 3], &[1, 2, 4]));
    assert!(same_bytes(&[], &[]));
}

#[test]
fn record_makes_the_operation_of_its_kind() {
    assert_eq!(
        Operation::of_record(TxType::Deposit, 1, 2, d("3")),
        Operation::Deposit { txid: 2, client: 1, amount: d("3") }
    );
    assert_eq!(
        Operation::of_record(TxType::Withdrawal, 1, 2, d("3")),
        Operation::Withdrawal { txid: 2, client: 1, amount: d("3") }
    );
    assert_eq!(
        Operation::of_record(TxType::Dispute, 1, 2, d("3")),
        Operation::Dispute { client: 1, txid: 2 }
    );
    assert_eq!(
        Operation::of_record(TxType::Resolve, 1, 2, d("-3")),
        Operation::Resolve { client: 1, txid: 2 }
    );
    assert_eq!(
        Operation::of_record(TxType::Chargeback, 1, 2, d("3")),
        Operation::Chargeback { client: 1, txid: 2 }
    );
    assert!(Operation::of_record(TxType::Resolve, 1, 2, d("-3")).is_wf());
    assert!(!Operation::of_record(TxType::Deposit, 1, 2, d("-3")).is_wf());
    assert!(Operation::of_record(TxType::Deposit, 1, 2, d("0")).is_wf());
}

#[test]
fn held_is_the_sum_of_the_disputed_amounts() {
    let mut store = Store::new();
    store.handle_deposit(1, 1, d("1.25")).unwrap();
    store.handle_deposit(2, 1, d("2.50")).unwrap();
    store.handle_deposit(3, 1, d("4.00")).unwrap();
    store.handle_deposit(4, 2, d("8.00")).unwrap();
    store.handle_dispute(1, 1).unwrap();
    store.handle_dispute(1, 3).unwrap();
    store.handle_dispute(2, 4).unwrap();
    assert_eq!(store.get_account(1).held, d("5.25"));
    assert_eq!(store.get_account(2).held, d("8.00"));
    store.handle_resolve(1, 1).unwrap();
    assert_eq!(store.get_account(1).held, d("4.00"));
    store.handle_chargeback(1, 3).unwrap();
    assert_eq!(store.get_account(1).held, d("0.00"));
    assert_eq!(store.get_account(2).held, d("8.00"));
}

#[test]
fn closed_dispute_cannot_be_reopened() {
    let mut store = Store::new();
    store.handle_deposit(1, 1, d("1")).unwrap();
    store.handle_deposit(2, 1, d("1")).unwrap();
    store.handle_dispute(1, 1).unwrap();
    store.handle_resolve(1, 1).unwrap();
    store.handle_dispute(1, 2).unwrap();
    store.handle_chargeback(1, 2).unwrap();
    for txid in [1u32, 2u32] {
        let state = if txid == 1 { DisputeState::Resolved } else { DisputeState::ChargedBack };
        assert_eq!(
            store.handle_dispute(1, txid),
            Err(Error::TxInWrongState { txid, action: TxType::Dispute, state })
        );
        assert_eq!(
            store.handle_resolve(1, txid),
            Err(Error::TxInWrongState { txid, action: TxType::Resolve, state })
        );
        assert_eq!(
            store.handle_chargeback(1, txid),
            Err(Error::TxInWrongState { txid, action: TxType::Chargeback, state })
        );
    }
}

#[test]
fn zero_adds_nothing_and_keeps_the_other_scale() {
    let small = Amount::new(7, 3).unwrap();
    let wide = Amount::new(1 << 40, 9).unwrap();
    let most = Amount::new(MAX, 28).unwrap();
    let least = Amount::new(-MAX, 0).unwrap();
    for zero_scale in [0u32, 5, 28] {
        let zero = Amount::new(0, zero_scale).unwrap();
        for other in [small, wide, most, least] {
            assert_eq!(zero.checked_add(&other), Some(other));
            assert_eq!(other.checked_add(&zero), Some(other));
        }
        let other_zero = Amount::new(0, 2).unwrap();
        assert_eq!(zero.checked_add(&other_zero), Some(other_zero));
        assert_eq!(other_zero.checked_add(&zero), Some(zero));
    }
}

#[test]
fn negative_amounts_compare_by_value() {
    assert!(d("-1.10").at_least(&d("-1.1")));
    assert!(d("-1.1").at_least(&d("-1.10")));
    assert!(!d("-2").at_least(&d("-1.99999")));
    assert!(d("-1.99999").at_least(&d("-2")));
    assert!(d("0.000").at_least(&d("0")));
    assert!(d("0").at_least(&d("0.000")));
    assert!(!Amount::new(-MAX, 0).unwrap().at_least(&Amount::new(-MAX, 28).unwrap()));
    assert!(Amount::new(-1, 28).unwrap().at_least(&Amount::new(-1, 0).unwrap()));
    assert!(Amount::new(10_000_000_000_000_000_000_000_000_000, 28)
        .unwrap()
        .at_least(&Amount::new(1, 0).unwrap()));
    assert!(Amount::new(1, 0)
        .unwrap()
        .at_least(&Amount::new(10_000_000_000_000_000_000_000_000_000, 28).unwrap()));
}
