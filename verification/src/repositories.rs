//! The ledger as a whole: the three stores that one lock guards together.

use crate::accounts::{AccountView, AccountsRepository};
use crate::journal::{entries_of, JournalEntry, JournalRepository};
use crate::search::has_match;
use crate::transactions::{with_transaction_id, TransactionView, TransactionsRepository};
use vstd::prelude::*;

verus! {

/// The ledger as the contracts see it: what each store holds, in order.
pub struct LedgerView {
    pub accounts: Seq<AccountView>,
    pub transactions: Seq<TransactionView>,
    pub journal: Seq<JournalEntry>,
}

impl LedgerView {
    /// The ledger that holds nothing.
    pub open spec fn empty() -> LedgerView {
        LedgerView { accounts: Seq::empty(), transactions: Seq::empty(), journal: Seq::empty() }
    }

    /// No two accounts share an identifier.
    pub open spec fn account_ids_distinct(self) -> bool {
        forall|i: int, j: int|
            #![trigger self.accounts[i], self.accounts[j]]
            0 <= i < j < self.accounts.len() ==> self.accounts[i].account_id
                != self.accounts[j].account_id
    }

    /// No two accounts share an alias.
    pub open spec fn aliases_distinct(self) -> bool {
        forall|i: int, j: int|
            #![trigger self.accounts[i], self.accounts[j]]
            0 <= i < j < self.accounts.len() ==> self.accounts[i].alias != self.accounts[j].alias
    }

    /// No balance is negative, and none exceeds what `u64` holds.
    pub open spec fn balances_in_range(self) -> bool {
        forall|i: int|
            0 <= i < self.accounts.len() ==> 0 <= (#[trigger] self.accounts[i]).balance
                <= u64::MAX
    }

    /// No two transactions share an identifier.
    pub open spec fn transaction_ids_distinct(self) -> bool {
        forall|i: int, j: int|
            #![trigger self.transactions[i], self.transactions[j]]
            0 <= i < j < self.transactions.len() ==> self.transactions[i].transaction_id
                != self.transactions[j].transaction_id
    }

    /// No two journal entries share an identifier.
    pub open spec fn entry_ids_distinct(self) -> bool {
        forall|i: int, j: int|
            #![trigger self.journal[i], self.journal[j]]
            0 <= i < j < self.journal.len() ==> self.journal[i].entry_id
                != self.journal[j].entry_id
    }

    /// The journal holds exactly two entries for `transaction`: first the one
    /// for its left-hand account, in the declared direction, then the one for
    /// its right-hand account, in the opposite direction, both over its
    /// amount and made at its time.
    pub open spec fn is_paired(self, transaction: TransactionView) -> bool {
        let entries = entries_of(self.journal, transaction.transaction_id);
        &&& entries.len() == 2
        &&& entries[0].account_id == transaction.lhs_account_id
        &&& entries[0].movement_type == transaction.movement_type
        &&& entries[0].amount_in_cents == transaction.amount_in_cents
        &&& entries[0].created_at == transaction.created_at
        &&& entries[1].account_id == transaction.rhs_account_id
        &&& entries[1].movement_type == transaction.movement_type.opposite()
        &&& entries[1].amount_in_cents == transaction.amount_in_cents
        &&& entries[1].created_at == transaction.created_at
    }

    /// Every stored transaction has its pair of journal entries.
    pub open spec fn every_transaction_paired(self) -> bool {
        forall|i: int|
            0 <= i < self.transactions.len() ==> self.is_paired(#[trigger] self.transactions[i])
    }

    /// Every journal entry belongs to a stored transaction.
    pub open spec fn every_entry_owned(self) -> bool {
        forall|i: int|
            0 <= i < self.journal.len() ==> has_match(
                self.transactions,
                with_transaction_id((#[trigger] self.journal[i]).transaction_id),
            )
    }

    /// The ledger is consistent: identifiers and aliases are unique, balances
    /// are in range, and the journal holds the double entry of every
    /// transaction and nothing else.
    pub open spec fn consistent(self) -> bool {
        &&& self.account_ids_distinct()
        &&& self.aliases_distinct()
        &&& self.balances_in_range()
        &&& self.transaction_ids_distinct()
        &&& self.entry_ids_distinct()
        &&& self.every_transaction_paired()
        &&& self.every_entry_owned()
    }
}

/// The whole state of the ledger. Every operation takes it by reference, so
/// whoever serves requests decides where it lives and how it is locked: a
/// shared reference reads, an exclusive one runs a whole operation.
pub struct Repositories {
    pub accounts: AccountsRepository,
    pub transactions: TransactionsRepository,
    pub journal: JournalRepository,
}

impl View for Repositories {
    type V = LedgerView;

    open spec fn view(&self) -> LedgerView {
        LedgerView {
            accounts: self.accounts@,
            transactions: self.transactions@,
            journal: self.journal@,
        }
    }
}

impl Default for Repositories {
    fn default() -> (repositories: Repositories)
        ensures
            repositories@ == LedgerView::empty(),
            repositories@.consistent(),
    {
        Repositories {
            accounts: AccountsRepository::default(),
            transactions: TransactionsRepository::default(),
            journal: JournalRepository::default(),
        }
    }
}

} // verus!
