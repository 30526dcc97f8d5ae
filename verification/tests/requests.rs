use nano_ledger::accounts::{
    account_details, new_account, Account, AccountsRepository, CreateNewAccount,
};
use nano_ledger::errors::LedgerError;
use nano_ledger::identifiers::{MARK_BITS, RANDOM_MARK};
use nano_ledger::repositories::Repositories;
use nano_ledger::transactions::{
    new_transaction, transaction_details, CreateNewTransaction, CreatedTransaction,
};

const OK: u16 = 200;
const NOT_FOUND: u16 = 404;
const CONFLICT: u16 = 409;

fn status<T>(result: &Result<T, LedgerError>) -> u16 {
    match result {
        Ok(_) => OK,
        Err(error) => error.status_code(),
    }
}

fn unused_identifier() -> u128 {
    Account::new("nobody", 0).account_id
}

#[test]
fn should_report_account_not_found() {
    // Given
    let repos = Repositories::default();

    // When
    let response = account_details(&repos, &unused_identifier());

    // Then
    assert_eq!(status(&response), NOT_FOUND);
    assert!(matches!(response, Err(LedgerError::NotFound)));
}

#[test]
fn should_create_new_account_with_success() {
    // Given
    let mut repos = Repositories::default();

    // When
    let new = CreateNewAccount { alias: "ufs.main".to_string(), balance: Some(100000) };
    let response = new_account(&mut repos, new);

    // Then
    assert_eq!(status(&response), OK);
    let account = response.unwrap();
    assert_eq!(account.alias, "ufs.main");
    assert_eq!(account.balance, 100000);
    assert_eq!(account.account_id & MARK_BITS, RANDOM_MARK);
    let stored = account_details(&repos, &account.account_id).unwrap();
    assert_eq!(stored.alias, "ufs.main");
    assert_eq!(stored.balance, 100000);
}

#[test]
fn should_not_create_account_with_existing_alias() {
    // Given
    let existing_account = Account::new("ufs.savings", 10000);

    let accounts_repository = AccountsRepository { accounts: vec![existing_account.clone()] };

    let mut repos = Repositories { accounts: accounts_repository, ..Repositories::default() };

    // When
    let new = CreateNewAccount { alias: "ufs.savings".to_string(), balance: None };
    let response = new_account(&mut repos, new);

    // Then
    assert_eq!(status(&response), CONFLICT);
    assert!(matches!(response, Err(LedgerError::AliasTaken)));
    assert_eq!(repos.accounts.accounts.len(), 1);
    let kept = account_details(&repos, &existing_account.account_id).unwrap();
    assert_eq!(kept.alias, "ufs.savings");
    assert_eq!(kept.balance, 10000);
}

#[test]
fn should_report_transaction_not_found() {
    // Given
    let repos = Repositories::default();

    // When
    let response = transaction_details(&repos, &unused_identifier());

    // Then
    assert_eq!(status(&response), NOT_FOUND);
    assert!(matches!(response, Err(LedgerError::NotFound)));
}

#[test]
fn should_create_new_transaction_with_success() {
    // Given
    let savings_account = Account::new("ufs.savings", 100000);
    let main_account = Account::new("ufs.main", 50000);

    let savings_account_id = savings_account.account_id;
    let main_account_id = main_account.account_id;

    let accounts_repository = AccountsRepository { accounts: vec![savings_account, main_account] };

    let mut repos = Repositories { accounts: accounts_repository, ..Repositories::default() };

    // When
    let new = CreateNewTransaction::new_debit(
        savings_account_id,
        main_account_id,
        "emergency",
        10000,
    );
    let response = new_transaction(&mut repos, new);

    // Then
    assert_eq!(status(&response), OK);
    let receipt: CreatedTransaction = response.unwrap();
    assert_eq!(account_details(&repos, &savings_account_id).unwrap().balance, 90000);
    assert_eq!(account_details(&repos, &main_account_id).unwrap().balance, 60000);
    let stored = transaction_details(&repos, &receipt.transaction_id).unwrap();
    assert_eq!(stored.created_at, receipt.created_at);
    assert_eq!(stored.description, "emergency");
    assert_eq!(stored.amount_in_cents, 10000);
}

#[test]
fn should_reject_transaction_over_non_existing_account() {
    // Given
    let savings_account = Account::new("ufs.savings", 100000);

    let savings_account_id = savings_account.account_id;
    let non_existing_account_id = unused_identifier();

    let accounts_repository = AccountsRepository { accounts: vec![savings_account] };

    let mut repos = Repositories { accounts: accounts_repository, ..Repositories::default() };

    // When
    let new = CreateNewTransaction::new_credit(
        savings_account_id,
        non_existing_account_id,
        "deposit",
        10000,
    );
    let response = new_transaction(&mut repos, new);

    // Then
    assert_eq!(status(&response), NOT_FOUND);
    assert_eq!(response, Err(LedgerError::AccountNotFound(non_existing_account_id)));
    assert_eq!(account_details(&repos, &savings_account_id).unwrap().balance, 100000);
}

#[test]
fn should_reject_transaction_with_insufficient_balance() {
    // Given
    let amount_to_transfer = 100000;
    let amount_available = 100;

    let savings_account = Account::new("ufs.savings", amount_available);
    let main_account = Account::new("ufs.main", 0);

    // Save these IDs for later
    let savings_account_id = savings_account.account_id;
    let main_account_id = main_account.account_id;

    let accounts_repository = AccountsRepository { accounts: vec![savings_account, main_account] };

    let mut repos = Repositories { accounts: accounts_repository, ..Repositories::default() };

    // When
    let new = CreateNewTransaction::new_debit(
        savings_account_id,
        main_account_id,
        "emergency",
        amount_to_transfer,
    );
    let response = new_transaction(&mut repos, new);

    // Then
    assert_eq!(status(&response), CONFLICT);
    assert_eq!(response, Err(LedgerError::InsufficientFunds(savings_account_id)));
    assert_eq!(account_details(&repos, &savings_account_id).unwrap().balance, 100);
    assert_eq!(account_details(&repos, &main_account_id).unwrap().balance, 0);
}
