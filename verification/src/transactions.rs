//! Transactions: the declared direction of a movement, the request to move
//! funds, the stored record and its store.

use crate::accounts::total_balance;
use crate::clock::{current_time, Timestamp};
use crate::errors::LedgerError;
use crate::identifiers::fresh_identifier;
use crate::journal::JournalEntry;
use crate::laws::{lemma_transfer_keeps_consistency, lemma_transfer_keeps_the_total};
use crate::repositories::Repositories;
use crate::search::{
    first_matching, lemma_first_match, lemma_first_match_is, lemma_first_match_none,
};
use crate::transfers::{
    after_transfer, lemma_accepted_transfer_applies, transfer_rejection, transfer_result,
    TransferStamp,
};
use vstd::prelude::*;

verus! {

/// The declared direction of a movement between the left-hand and the
/// right-hand account of a transaction.
#[derive(Clone, Copy, Debug, PartialEq, Eq, Structural)]
pub enum MovementType {
    Debit,
    Credit,
}

impl MovementType {
    /// The other direction.
    pub open spec fn spec_opposite(&self) -> MovementType {
        match self {
            MovementType::Debit => MovementType::Credit,
            MovementType::Credit => MovementType::Debit,
        }
    }

    /// The direction of the other side of a double entry.
    #[verifier::when_used_as_spec(spec_opposite)]
    pub fn opposite(&self) -> (other: MovementType)
        ensures
            other == self.spec_opposite(),
    {
        match self {
            MovementType::Debit => MovementType::Credit,
            MovementType::Credit => MovementType::Debit,
        }
    }
}

/// A request to move funds, as the contracts see it.
pub struct TransferView {
    pub movement_type: MovementType,
    pub lhs_account_id: u128,
    pub rhs_account_id: u128,
    pub description: Seq<char>,
    pub amount_in_cents: u64,
}

impl TransferView {
    /// The account that pays: the left-hand one of a debit, the right-hand
    /// one of a credit.
    pub open spec fn payer(self) -> u128 {
        match self.movement_type {
            MovementType::Debit => self.lhs_account_id,
            MovementType::Credit => self.rhs_account_id,
        }
    }

    /// The account that receives: the other one.
    pub open spec fn receiver(self) -> u128 {
        match self.movement_type {
            MovementType::Debit => self.rhs_account_id,
            MovementType::Credit => self.lhs_account_id,
        }
    }
}

/// A request to move `amount_in_cents` between two accounts.
#[derive(Debug)]
pub struct CreateNewTransaction {
    movement_type: MovementType,
    lhs_account_id: u128,
    rhs_account_id: u128,
    description: String,
    amount_in_cents: u64,
}

impl View for CreateNewTransaction {
    type V = TransferView;

    closed spec fn view(&self) -> TransferView {
        TransferView {
            movement_type: self.movement_type,
            lhs_account_id: self.lhs_account_id,
            rhs_account_id: self.rhs_account_id,
            description: self.description@,
            amount_in_cents: self.amount_in_cents,
        }
    }
}

impl CreateNewTransaction {
    /// A request to move `amount` from `from` to `to`, declared as a debit
    /// of `from`.
    pub fn new_debit(from: u128, to: u128, description: &str, amount: u64) -> (request:
        CreateNewTransaction)
        ensures
            request@ == (TransferView {
                movement_type: MovementType::Debit,
                lhs_account_id: from,
                rhs_account_id: to,
                description: description@,
                amount_in_cents: amount,
            }),
    {
        CreateNewTransaction {
            movement_type: MovementType::Debit,
            lhs_account_id: from,
            rhs_account_id: to,
            description: description.to_owned(),
            amount_in_cents: amount,
        }
    }

    /// A request to move `amount` from `to` to `from`, declared as a credit
    /// of `from`.
    pub fn new_credit(from: u128, to: u128, description: &str, amount: u64) -> (request:
        CreateNewTransaction)
        ensures
            request@ == (TransferView {
                movement_type: MovementType::Credit,
                lhs_account_id: from,
                rhs_account_id: to,
                description: description@,
                amount_in_cents: amount,
            }),
    {
        CreateNewTransaction {
            movement_type: MovementType::Credit,
            lhs_account_id: from,
            rhs_account_id: to,
            description: description.to_owned(),
            amount_in_cents: amount,
        }
    }
}

/// The receipt of a transfer.
#[derive(Clone, Copy, Debug, PartialEq, Eq, Structural)]
pub struct CreatedTransaction {
    pub created_at: Timestamp,
    pub transaction_id: u128,
}

/// A stored transaction as the contracts see it.
pub struct TransactionView {
    pub created_at: Timestamp,
    pub transaction_id: u128,
    pub movement_type: MovementType,
    pub lhs_account_id: u128,
    pub rhs_account_id: u128,
    pub description: Seq<char>,
    pub amount_in_cents: u64,
}

/// The record of one committed transfer, as it was declared.
#[derive(Debug)]
pub struct Transaction {
    pub created_at: Timestamp,
    pub transaction_id: u128,
    pub movement_type: MovementType,
    pub lhs_account_id: u128,
    pub rhs_account_id: u128,
    pub description: String,
    pub amount_in_cents: u64,
}

impl View for Transaction {
    type V = TransactionView;

    open spec fn view(&self) -> TransactionView {
        TransactionView {
            created_at: self.created_at,
            transaction_id: self.transaction_id,
            movement_type: self.movement_type,
            lhs_account_id: self.lhs_account_id,
            rhs_account_id: self.rhs_account_id,
            description: self.description@,
            amount_in_cents: self.amount_in_cents,
        }
    }
}

impl Clone for Transaction {
    fn clone(&self) -> (copy: Transaction)
        ensures
            copy == *self,
    {
        Transaction {
            created_at: self.created_at,
            transaction_id: self.transaction_id,
            movement_type: self.movement_type,
            lhs_account_id: self.lhs_account_id,
            rhs_account_id: self.rhs_account_id,
            description: self.description.clone(),
            amount_in_cents: self.amount_in_cents,
        }
    }
}

/// The test that picks out the transactions with identifier `id`.
pub open spec fn with_transaction_id(id: u128) -> spec_fn(TransactionView) -> bool {
    |transaction: TransactionView| transaction.transaction_id == id
}

/// The first of `transactions` that has identifier `id`, if any.
pub open spec fn find_transaction(transactions: Seq<TransactionView>, id: u128) -> Option<
    TransactionView,
> {
    first_matching(transactions, with_transaction_id(id))
}

/// What a lookup of transaction `id` hands back: the first transaction with
/// that identifier, or `NotFound`.
pub open spec fn transaction_lookup(transactions: Seq<TransactionView>, id: u128) -> Result<
    TransactionView,
    LedgerError,
> {
    match find_transaction(transactions, id) {
        Some(transaction) => Ok(transaction),
        None => Err(LedgerError::NotFound),
    }
}

/// A result that holds a transaction, as the contracts see it.
pub open spec fn seen_transaction(result: Result<Transaction, LedgerError>) -> Result<
    TransactionView,
    LedgerError,
> {
    match result {
        Ok(transaction) => Ok(transaction@),
        Err(error) => Err(error),
    }
}

/// The committed transactions, oldest first.
pub struct TransactionsRepository {
    transactions: Vec<Transaction>,
}

impl View for TransactionsRepository {
    type V = Seq<TransactionView>;

    closed spec fn view(&self) -> Seq<TransactionView> {
        self.transactions@.map_values(|transaction: Transaction| transaction@)
    }
}

impl Default for TransactionsRepository {
    fn default() -> (repository: TransactionsRepository)
        ensures
            repository@ == Seq::<TransactionView>::empty(),
    {
        TransactionsRepository { transactions: Vec::new() }
    }
}

impl TransactionsRepository {
    /// Appends `transaction`.
    pub fn save_transaction(&mut self, transaction: Transaction)
        ensures
            final(self)@ == old(self)@.push(transaction@),
    {
        self.transactions.push(transaction);
        assert(self@ =~= old(self)@.push(transaction@));
    }

    /// The first transaction with identifier `id`.
    pub fn fetch_transaction(&self, id: &u128) -> (found: Option<&Transaction>)
        ensures
            match found {
                Some(transaction) => find_transaction(self@, *id) == Some(transaction@),
                None => find_transaction(self@, *id) is None,
            },
    {
        let mut i: usize = 0;
        while i < self.transactions.len()
            invariant
                i <= self.transactions.len(),
                forall|j: int| 0 <= j < i ==> !with_transaction_id(*id)(#[trigger] self@[j]),
            decreases self.transactions.len() - i,
        {
            if self.transactions[i].transaction_id == *id {
                proof {
                    lemma_first_match_is(self@, with_transaction_id(*id), i as int);
                }
                return Some(&self.transactions[i]);
            }
            i += 1;
        }
        proof {
            lemma_first_match_none(self@, with_transaction_id(*id));
        }
        None
    }
}

/// Commits `payload` under the identifiers and the time of `stamp`, as one
/// unit: either both balances change, the pair of journal entries is
/// appended and the transaction is stored, or the ledger stays as it was and
/// the reason is returned.
pub fn record_transaction(
    repos: &mut Repositories,
    payload: CreateNewTransaction,
    stamp: TransferStamp,
) -> (result: Result<CreatedTransaction, LedgerError>)
    ensures
        result == transfer_result(old(repos)@, payload@, stamp),
        final(repos)@ == after_transfer(old(repos)@, payload@, stamp),
        result is Err ==> final(repos)@ == old(repos)@,
        old(repos)@.consistent() ==> final(repos)@.consistent(),
        total_balance(final(repos)@.accounts) == total_balance(old(repos)@.accounts),
{
    proof {
        if repos@.consistent() {
            lemma_transfer_keeps_consistency(repos@, payload@, stamp);
        }
        lemma_transfer_keeps_the_total(repos@, payload@, stamp);
    }
    let lhs = payload.lhs_account_id;
    let rhs = payload.rhs_account_id;
    let amount = payload.amount_in_cents;

    let lhs_balance = match repos.accounts.fetch_by_id(&lhs) {
        Some(account) => account.balance,
        None => {
            return Err(LedgerError::AccountNotFound(lhs));
        },
    };
    let rhs_balance = match repos.accounts.fetch_by_id(&rhs) {
        Some(account) => account.balance,
        None => {
            return Err(LedgerError::AccountNotFound(rhs));
        },
    };

    let (payer, payer_balance, receiver, receiver_balance) = match payload.movement_type {
        MovementType::Debit => (lhs, lhs_balance, rhs, rhs_balance),
        MovementType::Credit => (rhs, rhs_balance, lhs, lhs_balance),
    };
    if payer_balance < amount {
        return Err(LedgerError::InsufficientFunds(payer));
    }
    if payer != receiver && receiver_balance > u64::MAX - amount {
        return Err(LedgerError::BalanceOverflow(receiver));
    }
    assert(transfer_rejection(repos@.accounts, payload@) is None);

    proof {
        lemma_first_match(repos@.transactions, with_transaction_id(stamp.transaction_id));
    }
    if repos.transactions.fetch_transaction(&stamp.transaction_id).is_some()
        || repos.journal.mentions_transaction(&stamp.transaction_id) {
        return Err(LedgerError::IdentifierInUse(stamp.transaction_id));
    }
    if repos.journal.holds_entry(&stamp.left_entry_id) {
        return Err(LedgerError::IdentifierInUse(stamp.left_entry_id));
    }
    if stamp.right_entry_id == stamp.left_entry_id || repos.journal.holds_entry(
        &stamp.right_entry_id,
    ) {
        return Err(LedgerError::IdentifierInUse(stamp.right_entry_id));
    }
    // From here on nothing can fail: the checks above have shown that both
    // changes of balance apply.
    proof {
        lemma_accepted_transfer_applies(repos@.accounts, payload@);
    }
    if repos.accounts.apply_delta(&payer, -(amount as i128)).is_err() {
        return Err(LedgerError::InternalInconsistency);
    }
    if repos.accounts.apply_delta(&receiver, amount as i128).is_err() {
        return Err(LedgerError::InternalInconsistency);
    }
    let transaction = Transaction {
        created_at: stamp.created_at,
        transaction_id: stamp.transaction_id,
        movement_type: payload.movement_type,
        lhs_account_id: lhs,
        rhs_account_id: rhs,
        description: payload.description,
        amount_in_cents: amount,
    };
    let left_entry = JournalEntry {
        created_at: stamp.created_at,
        entry_id: stamp.left_entry_id,
        transaction_id: stamp.transaction_id,
        account_id: lhs,
        movement_type: transaction.movement_type,
        amount_in_cents: amount,
    };
    let right_entry = JournalEntry {
        entry_id: stamp.right_entry_id,
        account_id: rhs,
        movement_type: transaction.movement_type.opposite(),
        ..left_entry
    };

    let pair = vec![left_entry, right_entry];
    assert(old(repos)@.journal + pair@ =~= old(repos)@.journal.push(left_entry).push(right_entry));
    repos.journal.save_entries(pair);
    repos.transactions.save_transaction(transaction);

    Ok(CreatedTransaction { created_at: stamp.created_at, transaction_id: stamp.transaction_id })
}

/// Moves funds between two accounts: draws the identifiers and reads the
/// clock, then commits the transfer under them.
///
/// What the accounts object to is decided by the request and the ledger
/// alone, whatever is drawn. Beyond that the outcome is that of
/// `record_transaction` for what was drawn.
pub fn new_transaction(repos: &mut Repositories, payload: CreateNewTransaction) -> (result: Result<
    CreatedTransaction,
    LedgerError,
>)
    ensures
        transfer_rejection(old(repos)@.accounts, payload@) matches Some(error) ==> result == Err::<
            CreatedTransaction,
            LedgerError,
        >(error) && final(repos)@ == old(repos)@,
        exists|stamp: TransferStamp|
            stamp.is_random() && result == #[trigger] transfer_result(old(repos)@, payload@, stamp)
                && final(repos)@ == after_transfer(old(repos)@, payload@, stamp),
        result is Err ==> final(repos)@ == old(repos)@,
        old(repos)@.consistent() ==> final(repos)@.consistent(),
        total_balance(final(repos)@.accounts) == total_balance(old(repos)@.accounts),
{
    let stamp = TransferStamp {
        transaction_id: fresh_identifier(),
        left_entry_id: fresh_identifier(),
        right_entry_id: fresh_identifier(),
        created_at: current_time(),
    };
    record_transaction(repos, payload, stamp)
}

/// The stored transaction with identifier `transaction_id`.
pub fn transaction_details(repos: &Repositories, transaction_id: &u128) -> (result: Result<
    Transaction,
    LedgerError,
>)
    ensures
        seen_transaction(result) == transaction_lookup(repos@.transactions, *transaction_id),
{
    match repos.transactions.fetch_transaction(transaction_id) {
        Some(transaction) => Ok(transaction.clone()),
        None => Err(LedgerError::NotFound),
    }
}

} // verus!
