use nano_ledger::accounts::{Account, AccountsRepository};
use nano_ledger::clock::Timestamp;
use nano_ledger::errors::LedgerError;
use nano_ledger::journal::{JournalEntry, JournalRepository};
use nano_ledger::transactions::{MovementType, Transaction, TransactionsRepository};

fn account(id: u128, alias: &str, balance: u64) -> Account {
    Account { account_id: id, alias: alias.to_string(), balance }
}

fn entry(entry_id: u128, transaction_id: u128, account_id: u128) -> JournalEntry {
    JournalEntry {
        created_at: Timestamp { seconds: 10, nanoseconds: 20 },
        entry_id,
        transaction_id,
        account_id,
        movement_type: MovementType::Debit,
        amount_in_cents: 5,
    }
}

fn transaction(id: u128, description: &str) -> Transaction {
    Transaction {
        created_at: Timestamp { seconds: 10, nanoseconds: 20 },
        transaction_id: id,
        movement_type: MovementType::Credit,
        lhs_account_id: 1,
        rhs_account_id: 2,
        description: description.to_string(),
        amount_in_cents: 5,
    }
}

#[test]
fn opposite_of_each_direction() {
    assert_eq!(MovementType::Debit.opposite(), MovementType::Credit);
    assert_eq!(MovementType::Credit.opposite(), MovementType::Debit);
    assert_eq!(MovementType::Debit.opposite().opposite(), MovementType::Debit);
}

#[test]
fn add_balance_adds_or_reports_overflow() {
    let mut one = account(1, "one", 40);
    assert_eq!(one.add_balance(2), Ok(()));
    assert_eq!(one.balance, 42);
    assert_eq!(one.add_balance(u64::MAX - 42), Ok(()));
    assert_eq!(one.balance, u64::MAX);
    assert_eq!(one.add_balance(1), Err(LedgerError::BalanceOverflow(1)));
    assert_eq!(one.balance, u64::MAX);
    assert_eq!(one.add_balance(0), Ok(()));
    assert_eq!(one.alias, "one");
    assert_eq!(one.account_id, 1);
}

#[test]
fn subtract_balance_subtracts_or_reports_insufficient_funds() {
    let mut one = account(1, "one", 40);
    assert_eq!(one.subtract_balance(15), Ok(()));
    assert_eq!(one.balance, 25);
    assert_eq!(one.subtract_balance(26), Err(LedgerError::InsufficientFunds(1)));
    assert_eq!(one.balance, 25);
    assert_eq!(one.subtract_balance(25), Ok(()));
    assert_eq!(one.balance, 0);
    assert_eq!(one.subtract_balance(1), Err(LedgerError::InsufficientFunds(1)));
    assert_eq!(one.alias, "one");
}

#[test]
fn a_clone_of_an_account_holds_the_same() {
    let one = account(1, "one", 40);
    let copy = one.clone();
    assert_eq!(copy.account_id, 1);
    assert_eq!(copy.alias, "one");
    assert_eq!(copy.balance, 40);
}

#[test]
fn save_account_refuses_a_taken_alias_and_a_taken_identifier() {
    let mut repository = AccountsRepository::default();
    assert!(repository.accounts.is_empty());
    assert_eq!(repository.save_account(account(1, "one", 10)), Ok(()));
    assert_eq!(repository.save_account(account(2, "two", 20)), Ok(()));
    assert_eq!(repository.save_account(account(3, "one", 30)), Err(LedgerError::AliasTaken));
    assert_eq!(repository.save_account(account(2, "three", 30)), Err(LedgerError::IdentifierInUse(2)));
    assert_eq!(repository.save_account(account(2, "two", 30)), Err(LedgerError::AliasTaken));
    assert_eq!(repository.accounts.len(), 2);
    assert_eq!(repository.accounts[0].alias, "one");
    assert_eq!(repository.accounts[1].alias, "two");
}

#[test]
fn fetch_by_id_and_by_alias_find_the_account() {
    let mut repository = AccountsRepository::default();
    assert!(repository.fetch_by_id(&1).is_none());
    assert!(repository.fetch_by_alias("one").is_none());
    assert_eq!(repository.save_account(account(1, "one", 10)), Ok(()));
    assert_eq!(repository.save_account(account(2, "two", 20)), Ok(()));

    let by_id = repository.fetch_by_id(&2).unwrap();
    assert_eq!(by_id.alias, "two");
    assert_eq!(by_id.balance, 20);
    let by_alias = repository.fetch_by_alias("one").unwrap();
    assert_eq!(by_alias.account_id, 1);
    assert_eq!(by_alias.balance, 10);
    assert!(repository.fetch_by_id(&3).is_none());
    assert!(repository.fetch_by_alias("One").is_none());
    assert!(repository.fetch_by_alias("on").is_none());
}

#[test]
fn lookups_take_the_first_match() {
    let repository = AccountsRepository {
        accounts: vec![account(1, "one", 10), account(1, "other", 20), account(2, "one", 30)],
    };
    assert_eq!(repository.fetch_by_id(&1).unwrap().alias, "one");
    assert_eq!(repository.fetch_by_alias("one").unwrap().account_id, 1);
    assert_eq!(repository.fetch_by_alias("other").unwrap().balance, 20);
}

#[test]
fn apply_delta_changes_one_balance_or_none() {
    let mut repository = AccountsRepository::default();
    assert_eq!(repository.save_account(account(1, "one", 10)), Ok(()));
    assert_eq!(repository.save_account(account(2, "two", 20)), Ok(()));

    assert_eq!(repository.apply_delta(&1, 5), Ok(()));
    assert_eq!(repository.fetch_by_id(&1).unwrap().balance, 15);
    assert_eq!(repository.apply_delta(&1, -15), Ok(()));
    assert_eq!(repository.fetch_by_id(&1).unwrap().balance, 0);
    assert_eq!(repository.apply_delta(&1, 0), Ok(()));
    assert_eq!(repository.apply_delta(&1, -1), Err(LedgerError::InsufficientFunds(1)));
    assert_eq!(repository.apply_delta(&3, 1), Err(LedgerError::NotFound));
    assert_eq!(repository.apply_delta(&2, u64::MAX as i128 - 19), Err(LedgerError::BalanceOverflow(2)));
    assert_eq!(repository.apply_delta(&2, u64::MAX as i128 - 20), Ok(()));
    assert_eq!(repository.fetch_by_id(&2).unwrap().balance, u64::MAX);
    assert_eq!(repository.apply_delta(&2, -(u64::MAX as i128)), Ok(()));
    assert_eq!(repository.fetch_by_id(&2).unwrap().balance, 0);
    assert_eq!(repository.apply_delta(&2, i128::MAX), Err(LedgerError::BalanceOverflow(2)));
    assert_eq!(repository.apply_delta(&2, i128::MIN), Err(LedgerError::InsufficientFunds(2)));
    assert_eq!(repository.apply_delta(&2, u64::MAX as i128 + 1), Err(LedgerError::BalanceOverflow(2)));
    assert_eq!(repository.apply_delta(&2, -(u64::MAX as i128) - 1), Err(LedgerError::InsufficientFunds(2)));
    assert_eq!(repository.fetch_by_id(&1).unwrap().balance, 0);
    assert_eq!(repository.fetch_by_id(&2).unwrap().balance, 0);
}

#[test]
fn the_journal_returns_the_entries_of_one_transaction_in_order() {
    let mut journal = JournalRepository::default();
    assert!(journal.fetch_by_transaction(&7).is_empty());
    journal.save_entries(vec![entry(1, 7, 100), entry(2, 7, 200)]);
    journal.save_entries(vec![]);
    journal.save_entries(vec![entry(3, 8, 100)]);
    journal.save_entries(vec![entry(4, 7, 300), entry(5, 9, 100), entry(6, 9, 200)]);

    assert_eq!(
        journal.fetch_by_transaction(&7),
        vec![entry(1, 7, 100), entry(2, 7, 200), entry(4, 7, 300)]
    );
    assert_eq!(journal.fetch_by_transaction(&8), vec![entry(3, 8, 100)]);
    assert_eq!(journal.fetch_by_transaction(&9), vec![entry(5, 9, 100), entry(6, 9, 200)]);
    assert!(journal.fetch_by_transaction(&10).is_empty());

    assert!(journal.mentions_transaction(&7));
    assert!(journal.mentions_transaction(&9));
    assert!(!journal.mentions_transaction(&1));
    assert!(journal.holds_entry(&1));
    assert!(journal.holds_entry(&6));
    assert!(!journal.holds_entry(&7));
}

#[test]
fn the_transaction_store_finds_what_was_saved() {
    let mut store = TransactionsRepository::default();
    assert!(store.fetch_transaction(&1).is_none());
    store.save_transaction(transaction(1, "first"));
    store.save_transaction(transaction(2, "second"));
    store.save_transaction(transaction(1, "shadowed"));

    assert_eq!(store.fetch_transaction(&1).unwrap().description, "first");
    let second = store.fetch_transaction(&2).unwrap().clone();
    assert_eq!(second.description, "second");
    assert_eq!(second.transaction_id, 2);
    assert_eq!(second.movement_type, MovementType::Credit);
    assert_eq!(second.lhs_account_id, 1);
    assert_eq!(second.rhs_account_id, 2);
    assert_eq!(second.amount_in_cents, 5);
    assert_eq!(second.created_at, Timestamp { seconds: 10, nanoseconds: 20 });
    assert!(store.fetch_transaction(&3).is_none());
}
