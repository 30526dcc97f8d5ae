//! What a transfer does to the ledger, stated over the views of its stores.

use crate::accounts::{delta_failure, find_by_id, with_delta, with_id, AccountView};
use crate::clock::Timestamp;
use crate::errors::LedgerError;
use crate::identifiers::is_random_identifier;
use crate::journal::{of_transaction, with_entry_id, JournalEntry};
use crate::repositories::LedgerView;
use crate::search::{first_match, has_match, lemma_first_match, lemma_first_match_agrees};
use crate::transactions::{
    with_transaction_id, CreatedTransaction, TransactionView, TransferView,
};
use vstd::prelude::*;

verus! {

/// What is drawn for one transfer at the moment it is committed: the
/// identifier of the transaction, those of its two journal entries, and the
/// time.
#[derive(Clone, Copy, Debug, PartialEq, Eq, Structural)]
pub struct TransferStamp {
    pub transaction_id: u128,
    pub left_entry_id: u128,
    pub right_entry_id: u128,
    pub created_at: Timestamp,
}

impl TransferStamp {
    /// All three identifiers carry the marks of a random draw.
    pub open spec fn is_random(self) -> bool {
        &&& is_random_identifier(self.transaction_id)
        &&& is_random_identifier(self.left_entry_id)
        &&& is_random_identifier(self.right_entry_id)
    }
}

/// Why `accounts` cannot carry out `request`, if they cannot. The checks run
/// in this order: the left-hand account exists, the right-hand account
/// exists, the payer holds the amount, the receiver's balance stays within
/// `u64`. A transfer from an account to itself never overflows.
pub open spec fn transfer_rejection(accounts: Seq<AccountView>, request: TransferView) -> Option<
    LedgerError,
> {
    let amount = request.amount_in_cents;
    if find_by_id(accounts, request.lhs_account_id) is None {
        Some(LedgerError::AccountNotFound(request.lhs_account_id))
    } else if find_by_id(accounts, request.rhs_account_id) is None {
        Some(LedgerError::AccountNotFound(request.rhs_account_id))
    } else if find_by_id(accounts, request.payer())->0.balance < amount {
        Some(LedgerError::InsufficientFunds(request.payer()))
    } else if request.payer() != request.receiver() && find_by_id(
        accounts,
        request.receiver(),
    )->0.balance + amount > u64::MAX {
        Some(LedgerError::BalanceOverflow(request.receiver()))
    } else {
        None
    }
}

/// `accounts` once the amount of `request` has left the payer and reached
/// the receiver.
pub open spec fn balances_after(accounts: Seq<AccountView>, request: TransferView) -> Seq<
    AccountView,
> {
    let amount = request.amount_in_cents as int;
    with_delta(with_delta(accounts, request.payer(), -amount), request.receiver(), amount)
}

/// Which identifier of `stamp` the ledger already holds, if any. The
/// transaction's identifier is in use when a stored transaction or a journal
/// entry refers to it; an entry's identifier when a journal entry has it.
/// The two entries of one transfer may not share theirs.
pub open spec fn identifier_failure(ledger: LedgerView, stamp: TransferStamp) -> Option<
    LedgerError,
> {
    if has_match(ledger.transactions, with_transaction_id(stamp.transaction_id)) || has_match(
        ledger.journal,
        of_transaction(stamp.transaction_id),
    ) {
        Some(LedgerError::IdentifierInUse(stamp.transaction_id))
    } else if has_match(ledger.journal, with_entry_id(stamp.left_entry_id)) {
        Some(LedgerError::IdentifierInUse(stamp.left_entry_id))
    } else if stamp.right_entry_id == stamp.left_entry_id || has_match(
        ledger.journal,
        with_entry_id(stamp.right_entry_id),
    ) {
        Some(LedgerError::IdentifierInUse(stamp.right_entry_id))
    } else {
        None
    }
}

/// Why `request` cannot be committed under `stamp`, if it cannot: what the
/// accounts object to comes first, then what the identifiers clash with.
pub open spec fn transfer_failure(
    ledger: LedgerView,
    request: TransferView,
    stamp: TransferStamp,
) -> Option<LedgerError> {
    match transfer_rejection(ledger.accounts, request) {
        Some(error) => Some(error),
        None => identifier_failure(ledger, stamp),
    }
}

/// The transaction that records `request`: its accounts and its direction
/// as they were declared.
pub open spec fn transaction_of(request: TransferView, stamp: TransferStamp) -> TransactionView {
    TransactionView {
        created_at: stamp.created_at,
        transaction_id: stamp.transaction_id,
        movement_type: request.movement_type,
        lhs_account_id: request.lhs_account_id,
        rhs_account_id: request.rhs_account_id,
        description: request.description,
        amount_in_cents: request.amount_in_cents,
    }
}

/// The journal entry for the left-hand account: the declared direction.
pub open spec fn left_entry_of(request: TransferView, stamp: TransferStamp) -> JournalEntry {
    JournalEntry {
        created_at: stamp.created_at,
        entry_id: stamp.left_entry_id,
        transaction_id: stamp.transaction_id,
        account_id: request.lhs_account_id,
        movement_type: request.movement_type,
        amount_in_cents: request.amount_in_cents,
    }
}

/// The journal entry for the right-hand account: the opposite direction.
pub open spec fn right_entry_of(request: TransferView, stamp: TransferStamp) -> JournalEntry {
    JournalEntry {
        created_at: stamp.created_at,
        entry_id: stamp.right_entry_id,
        transaction_id: stamp.transaction_id,
        account_id: request.rhs_account_id,
        movement_type: request.movement_type.opposite(),
        amount_in_cents: request.amount_in_cents,
    }
}

/// The ledger once `request` is committed under `stamp`: both balances
/// changed, the pair of entries appended, the transaction stored.
pub open spec fn committed(
    ledger: LedgerView,
    request: TransferView,
    stamp: TransferStamp,
) -> LedgerView {
    LedgerView {
        accounts: balances_after(ledger.accounts, request),
        transactions: ledger.transactions.push(transaction_of(request, stamp)),
        journal: ledger.journal.push(left_entry_of(request, stamp)).push(
            right_entry_of(request, stamp),
        ),
    }
}

/// The ledger after an attempt to commit `request` under `stamp`: all of
/// the above, or no change at all.
pub open spec fn after_transfer(
    ledger: LedgerView,
    request: TransferView,
    stamp: TransferStamp,
) -> LedgerView {
    if transfer_failure(ledger, request, stamp) is None {
        committed(ledger, request, stamp)
    } else {
        ledger
    }
}

/// What an attempt to commit `request` under `stamp` returns: the receipt,
/// or the reason for the refusal.
pub open spec fn transfer_result(
    ledger: LedgerView,
    request: TransferView,
    stamp: TransferStamp,
) -> Result<CreatedTransaction, LedgerError> {
    match transfer_failure(ledger, request, stamp) {
        Some(error) => Err(error),
        None => Ok(
            CreatedTransaction {
                created_at: stamp.created_at,
                transaction_id: stamp.transaction_id,
            },
        ),
    }
}

/// A change of balance moves no account and touches no identifier, so every
/// lookup by identifier finds the same position as before, and there the
/// same account, with its new balance if it is the one that changed.
pub proof fn lemma_find_after_delta(accounts: Seq<AccountView>, id: u128, delta: int, other: u128)
    ensures
        first_match(with_delta(accounts, id, delta), with_id(other)) == first_match(
            accounts,
            with_id(other),
        ),
        find_by_id(with_delta(accounts, id, delta), other) == match find_by_id(accounts, other) {
            Some(account) => Some(
                if other == id {
                    account.adjusted(delta)
                } else {
                    account
                },
            ),
            None => None,
        },
{
    let changed = with_delta(accounts, id, delta);
    lemma_first_match(accounts, with_id(id));
    lemma_first_match(accounts, with_id(other));
    assert forall|j: int| 0 <= j < accounts.len() implies with_id(other)(#[trigger] accounts[j])
        == with_id(other)(changed[j]) by {}
    lemma_first_match_agrees(accounts, changed, with_id(other));
}

/// Once the accounts accept a transfer, neither of its two changes of
/// balance can fail.
pub proof fn lemma_accepted_transfer_applies(accounts: Seq<AccountView>, request: TransferView)
    requires
        transfer_rejection(accounts, request) is None,
        forall|i: int| 0 <= i < accounts.len() ==> 0 <= (#[trigger] accounts[i]).balance <= u64::MAX,
    ensures
        delta_failure(accounts, request.payer(), -(request.amount_in_cents as int)) is None,
        delta_failure(
            with_delta(accounts, request.payer(), -(request.amount_in_cents as int)),
            request.receiver(),
            request.amount_in_cents as int,
        ) is None,
{
    let amount = request.amount_in_cents as int;
    lemma_first_match(accounts, with_id(request.payer()));
    lemma_first_match(accounts, with_id(request.receiver()));
    lemma_find_after_delta(accounts, request.payer(), -amount, request.receiver());
}

} // verus!
