use nano_ledger::accounts::{new_account, Account, CreateNewAccount};
use nano_ledger::identifiers::{MARK_BITS, RANDOM_MARK};
use nano_ledger::journal::entries_for_transaction;
use nano_ledger::repositories::Repositories;
use nano_ledger::transactions::{new_transaction, CreateNewTransaction};

#[test]
fn drawn_identifiers_are_random_uuids() {
    let first = Account::new("first", 0).account_id;
    let second = Account::new("second", 0).account_id;
    assert_ne!(first, second);
    for id in [first, second] {
        assert_eq!(id & MARK_BITS, RANDOM_MARK);
        let uuid = uuid::Uuid::from_u128(id);
        assert_eq!(uuid.get_version_num(), 4);
        assert_eq!(uuid.get_variant(), uuid::Variant::RFC4122);
        assert_eq!(uuid.as_u128(), id);
    }
}

#[test]
fn the_marks_are_those_of_the_uuid_layout() {
    let all = uuid::Uuid::from_u128(MARK_BITS).hyphenated().to_string();
    assert_eq!(all, "00000000-0000-f000-c000-000000000000");
    let random = uuid::Uuid::from_u128(RANDOM_MARK).hyphenated().to_string();
    assert_eq!(random, "00000000-0000-4000-8000-000000000000");
}

#[test]
fn a_transfer_draws_three_identifiers_and_reads_the_clock() {
    let before = chrono::Utc::now();
    let mut repos = Repositories::default();
    let a = new_account(&mut repos, CreateNewAccount { alias: "a".to_string(), balance: Some(9) })
        .unwrap()
        .account_id;
    let b = new_account(&mut repos, CreateNewAccount { alias: "b".to_string(), balance: None })
        .unwrap()
        .account_id;
    assert_ne!(a, b);

    let first = new_transaction(&mut repos, CreateNewTransaction::new_debit(a, b, "one", 1)).unwrap();
    let second = new_transaction(&mut repos, CreateNewTransaction::new_debit(a, b, "two", 1)).unwrap();
    let after = chrono::Utc::now();
    assert_ne!(first.transaction_id, second.transaction_id);

    let mut seen = vec![a, b];
    for receipt in [first, second] {
        let entries = entries_for_transaction(&repos, &receipt.transaction_id).unwrap();
        for id in [receipt.transaction_id, entries[0].entry_id, entries[1].entry_id] {
            assert_eq!(id & MARK_BITS, RANDOM_MARK);
            assert!(!seen.contains(&id));
            seen.push(id);
        }
        let at = chrono::DateTime::from_timestamp(
            receipt.created_at.seconds,
            receipt.created_at.nanoseconds,
        )
        .unwrap();
        assert!(before <= at);
        assert!(at <= after);
    }
    assert!(first.created_at.seconds >= 1_600_000_000);
}
