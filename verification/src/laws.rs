//! What holds of the ledger whatever is asked of it.

use crate::accounts::{
    account_lookup, after_delta, after_registration, after_save, find_by_alias, find_by_id,
    save_failure, total_balance, with_alias, with_delta, with_id, AccountView,
};
use crate::errors::LedgerError;
use crate::journal::{
    entries_lookup, entries_of, lemma_entries_of_after_push, lemma_entries_of_unmentioned,
    with_entry_id, JournalEntry,
};
use crate::repositories::{LedgerView, Repositories};
use crate::search::{first_match, has_match, lemma_first_match, lemma_first_match_is};
use crate::transactions::{
    find_transaction, transaction_lookup, with_transaction_id, TransferView,
};
use crate::transfers::{
    after_transfer, left_entry_of, lemma_find_after_delta, right_entry_of, transaction_of,
    transfer_failure, transfer_result, TransferStamp,
};
use vstd::prelude::*;

verus! {

/// Changing one balance by `delta` changes the sum of all balances by
/// `delta`.
proof fn lemma_total_after_adjustment(accounts: Seq<AccountView>, i: int, delta: int)
    requires
        0 <= i < accounts.len(),
    ensures
        total_balance(accounts.update(i, accounts[i].adjusted(delta))) == total_balance(accounts)
            + delta,
    decreases accounts.len(),
{
    let changed = accounts.update(i, accounts[i].adjusted(delta));
    if i == accounts.len() - 1 {
        assert(changed.drop_last() =~= accounts.drop_last());
    } else {
        lemma_total_after_adjustment(accounts.drop_last(), i, delta);
        assert(changed.drop_last() =~= accounts.drop_last().update(
            i,
            accounts.drop_last()[i].adjusted(delta),
        ));
    }
}

/// Conservation: a successful transfer takes from the payer exactly what it
/// gives to the receiver, so the two balances together hold afterwards what
/// they held before.
pub proof fn lemma_transfer_conserves_funds(
    ledger: LedgerView,
    request: TransferView,
    stamp: TransferStamp,
)
    requires
        transfer_result(ledger, request, stamp) is Ok,
    ensures
        ({
            let after = after_transfer(ledger, request, stamp).accounts;
            let amount = request.amount_in_cents as int;
            let payer_before = find_by_id(ledger.accounts, request.payer())->0.balance;
            let receiver_before = find_by_id(ledger.accounts, request.receiver())->0.balance;
            let payer_after = find_by_id(after, request.payer())->0.balance;
            let receiver_after = find_by_id(after, request.receiver())->0.balance;
            &&& find_by_id(ledger.accounts, request.payer()) is Some
            &&& find_by_id(ledger.accounts, request.receiver()) is Some
            &&& find_by_id(after, request.payer()) is Some
            &&& find_by_id(after, request.receiver()) is Some
            &&& payer_after + receiver_after == payer_before + receiver_before
            &&& request.payer() != request.receiver() ==> payer_after == payer_before - amount
                && receiver_after == receiver_before + amount
            &&& request.payer() == request.receiver() ==> payer_after == payer_before
        }),
{
    let amount = request.amount_in_cents as int;
    let payer = request.payer();
    let receiver = request.receiver();
    let debited = with_delta(ledger.accounts, payer, -amount);
    lemma_first_match(ledger.accounts, with_id(payer));
    lemma_first_match(ledger.accounts, with_id(receiver));
    lemma_find_after_delta(ledger.accounts, payer, -amount, payer);
    lemma_find_after_delta(ledger.accounts, payer, -amount, receiver);
    lemma_find_after_delta(debited, receiver, amount, payer);
    lemma_find_after_delta(debited, receiver, amount, receiver);
}

/// No transfer creates or destroys funds: committed or refused, it leaves
/// the sum of all balances as it was.
pub proof fn lemma_transfer_keeps_the_total(
    ledger: LedgerView,
    request: TransferView,
    stamp: TransferStamp,
)
    ensures
        total_balance(after_transfer(ledger, request, stamp).accounts) == total_balance(
            ledger.accounts,
        ),
{
    if transfer_failure(ledger, request, stamp) is None {
        let amount = request.amount_in_cents as int;
        let payer = request.payer();
        let receiver = request.receiver();
        let debited = with_delta(ledger.accounts, payer, -amount);
        lemma_first_match(ledger.accounts, with_id(payer));
        lemma_first_match(ledger.accounts, with_id(receiver));
        lemma_find_after_delta(ledger.accounts, payer, -amount, receiver);
        lemma_first_match(debited, with_id(receiver));
        lemma_total_after_adjustment(
            ledger.accounts,
            first_match(ledger.accounts, with_id(payer))->0,
            -amount,
        );
        lemma_total_after_adjustment(debited, first_match(debited, with_id(receiver))->0, amount);
    }
}

/// No negative balances: a transfer, committed or refused, leaves every
/// balance at or above zero and within what `u64` holds.
pub proof fn lemma_transfer_keeps_balances_in_range(
    ledger: LedgerView,
    request: TransferView,
    stamp: TransferStamp,
)
    requires
        ledger.balances_in_range(),
    ensures
        after_transfer(ledger, request, stamp).balances_in_range(),
{
    if transfer_failure(ledger, request, stamp) is None {
        let amount = request.amount_in_cents as int;
        let payer = request.payer();
        let receiver = request.receiver();
        let debited = with_delta(ledger.accounts, payer, -amount);
        let after = after_transfer(ledger, request, stamp);
        lemma_first_match(ledger.accounts, with_id(payer));
        lemma_first_match(ledger.accounts, with_id(receiver));
        lemma_find_after_delta(ledger.accounts, payer, -amount, receiver);
        lemma_first_match(debited, with_id(receiver));
        assert forall|i: int| 0 <= i < debited.len() implies 0 <= (#[trigger] debited[i]).balance
            <= u64::MAX by {
            assert(0 <= ledger.accounts[i].balance <= u64::MAX);
        }
        assert forall|i: int| 0 <= i < after.accounts.len() implies 0 <= (
        #[trigger] after.accounts[i]).balance <= u64::MAX by {
            assert(0 <= debited[i].balance <= u64::MAX);
        }
    }
}

/// The ledger after each of `steps` was served in turn, each under what was
/// drawn for it.
pub open spec fn after_run(ledger: LedgerView, steps: Seq<(TransferView, TransferStamp)>) -> LedgerView
    decreases steps.len(),
{
    if steps.len() == 0 {
        ledger
    } else {
        after_transfer(after_run(ledger, steps.drop_last()), steps.last().0, steps.last().1)
    }
}

/// Whatever transfers are asked for, and in whatever order they are served
/// one after the other, the sum of all balances at the end is what it was at
/// the start, no balance has left its range, and a consistent ledger is
/// still consistent.
pub proof fn lemma_every_run_conserves_funds(
    ledger: LedgerView,
    steps: Seq<(TransferView, TransferStamp)>,
)
    ensures
        total_balance(after_run(ledger, steps).accounts) == total_balance(ledger.accounts),
        ledger.balances_in_range() ==> after_run(ledger, steps).balances_in_range(),
        ledger.consistent() ==> after_run(ledger, steps).consistent(),
    decreases steps.len(),
{
    if steps.len() > 0 {
        let before = after_run(ledger, steps.drop_last());
        lemma_every_run_conserves_funds(ledger, steps.drop_last());
        lemma_transfer_keeps_the_total(before, steps.last().0, steps.last().1);
        if ledger.balances_in_range() {
            lemma_transfer_keeps_balances_in_range(before, steps.last().0, steps.last().1);
        }
        if ledger.consistent() {
            lemma_transfer_keeps_consistency(before, steps.last().0, steps.last().1);
        }
    }
}

/// The ledger that holds nothing is consistent.
pub proof fn lemma_empty_ledger_is_consistent()
    ensures
        LedgerView::empty().consistent(),
{
}

/// Whatever the stores hold, no balance is negative and none exceeds what
/// `u64` holds.
pub proof fn lemma_balances_never_negative(repos: Repositories)
    ensures
        repos@.balances_in_range(),
{
}

/// Opening an account, or refusing to, keeps a consistent ledger consistent.
pub proof fn lemma_registration_keeps_consistency(ledger: LedgerView, account: AccountView)
    requires
        ledger.consistent(),
        0 <= account.balance <= u64::MAX,
    ensures
        after_registration(ledger, account).consistent(),
{
    let after = after_registration(ledger, account);
    if save_failure(ledger.accounts, account) is None {
        let n = ledger.accounts.len() as int;
        assert forall|i: int, j: int|
            #![trigger after.accounts[i], after.accounts[j]]
            0 <= i < j < after.accounts.len() implies after.accounts[i].account_id
            != after.accounts[j].account_id && after.accounts[i].alias
            != after.accounts[j].alias by {
            if j == n {
                assert(!with_id(account.account_id)(ledger.accounts[i]));
                assert(!with_alias(account.alias)(ledger.accounts[i]));
            } else {
                assert(after.accounts[i] == ledger.accounts[i]);
                assert(after.accounts[j] == ledger.accounts[j]);
            }
        }
        assert forall|i: int| 0 <= i < after.accounts.len() implies 0 <= (
        #[trigger] after.accounts[i]).balance <= u64::MAX by {
            if i < n {
                assert(after.accounts[i] == ledger.accounts[i]);
            }
        }
    }
}

/// Alias uniqueness: once an account is saved, a second one with the same
/// alias is refused as `AliasTaken`, and the refusal changes nothing, so the
/// first account stays as it was saved.
pub proof fn lemma_alias_is_taken_once_saved(
    accounts: Seq<AccountView>,
    first: AccountView,
    second: AccountView,
)
    requires
        save_failure(accounts, first) is None,
        second.alias == first.alias,
    ensures
        save_failure(after_save(accounts, first), second) == Some(LedgerError::AliasTaken),
        after_save(after_save(accounts, first), second) == after_save(accounts, first),
        find_by_id(after_save(accounts, first), first.account_id) == Some(first),
        find_by_alias(after_save(accounts, first), first.alias) == Some(first),
{
    let saved = after_save(accounts, first);
    let last = accounts.len() as int;
    assert(with_alias(second.alias)(saved[last]));
    assert forall|j: int| 0 <= j < last implies !with_id(first.account_id)(
        #[trigger] saved[j],
    ) by {
        assert(saved[j] == accounts[j]);
        assert(!with_id(first.account_id)(accounts[j]));
    }
    lemma_first_match_is(saved, with_id(first.account_id), last);
    assert forall|j: int| 0 <= j < last implies !with_alias(first.alias)(#[trigger] saved[j]) by {
        assert(saved[j] == accounts[j]);
        assert(!with_alias(first.alias)(accounts[j]));
    }
    lemma_first_match_is(saved, with_alias(first.alias), last);
}

/// A change of balance, or the refusal of one, keeps a consistent ledger
/// consistent.
pub proof fn lemma_delta_keeps_consistency(ledger: LedgerView, id: u128, delta: int)
    requires
        ledger.consistent(),
    ensures
        (LedgerView { accounts: after_delta(ledger.accounts, id, delta), ..ledger }).consistent(),
{
    let after = LedgerView { accounts: after_delta(ledger.accounts, id, delta), ..ledger };
    lemma_first_match(ledger.accounts, with_id(id));
    assert forall|i: int, j: int|
        #![trigger after.accounts[i], after.accounts[j]]
        0 <= i < j < after.accounts.len() implies after.accounts[i].account_id
        != after.accounts[j].account_id && after.accounts[i].alias != after.accounts[j].alias by {
        assert(after.accounts[i].account_id == ledger.accounts[i].account_id);
        assert(after.accounts[j].account_id == ledger.accounts[j].account_id);
        assert(after.accounts[i].alias == ledger.accounts[i].alias);
        assert(after.accounts[j].alias == ledger.accounts[j].alias);
    }
    assert forall|i: int| 0 <= i < after.accounts.len() implies 0 <= (
    #[trigger] after.accounts[i]).balance <= u64::MAX by {
        assert(0 <= ledger.accounts[i].balance <= u64::MAX);
    }
}

/// Double-entry pairing: once a transfer is committed, the journal holds
/// exactly two entries under its transaction's identifier, the one for the
/// left-hand account and then the one for the right-hand account. They carry
/// the same amount and opposite directions.
pub proof fn lemma_committed_transfer_is_paired(
    ledger: LedgerView,
    request: TransferView,
    stamp: TransferStamp,
)
    requires
        transfer_failure(ledger, request, stamp) is None,
    ensures
        ({
            let after = after_transfer(ledger, request, stamp);
            let entries = entries_of(after.journal, stamp.transaction_id);
            &&& entries == seq![left_entry_of(request, stamp), right_entry_of(request, stamp)]
            &&& entries[0].amount_in_cents == entries[1].amount_in_cents
            &&& entries[0].movement_type == entries[1].movement_type.opposite()
            &&& find_transaction(after.transactions, stamp.transaction_id) == Some(
                transaction_of(request, stamp),
            )
            &&& after.is_paired(transaction_of(request, stamp))
        }),
{
    let left = left_entry_of(request, stamp);
    let right = right_entry_of(request, stamp);
    lemma_entries_of_unmentioned(ledger.journal, stamp.transaction_id);
    lemma_entries_of_after_push(ledger.journal, left, stamp.transaction_id);
    lemma_entries_of_after_push(ledger.journal.push(left), right, stamp.transaction_id);
    assert(Seq::<JournalEntry>::empty().push(left).push(right) =~= seq![left, right]);

    let after = after_transfer(ledger, request, stamp);
    let last = ledger.transactions.len() as int;
    assert(with_transaction_id(stamp.transaction_id)(after.transactions[last]));
    assert forall|j: int| 0 <= j < last implies !with_transaction_id(stamp.transaction_id)(
        #[trigger] after.transactions[j],
    ) by {
        assert(after.transactions[j] == ledger.transactions[j]);
        assert(!with_transaction_id(stamp.transaction_id)(ledger.transactions[j]));
    }
    lemma_first_match_is(after.transactions, with_transaction_id(stamp.transaction_id), last);
}

/// A transfer, committed or refused, keeps a consistent ledger consistent:
/// balances stay in range, identifiers and aliases stay unique, and every
/// transaction, old or new, has exactly its pair of journal entries.
pub proof fn lemma_transfer_keeps_consistency(
    ledger: LedgerView,
    request: TransferView,
    stamp: TransferStamp,
)
    requires
        ledger.consistent(),
    ensures
        after_transfer(ledger, request, stamp).consistent(),
{
    if transfer_failure(ledger, request, stamp) is None {
        let after = after_transfer(ledger, request, stamp);
        let amount = request.amount_in_cents as int;
        let left = left_entry_of(request, stamp);
        let right = right_entry_of(request, stamp);
        let transaction = transaction_of(request, stamp);

        // The accounts: two changes of balance, neither of which can fail.
        let debited = LedgerView {
            accounts: with_delta(ledger.accounts, request.payer(), -amount),
            ..ledger
        };
        lemma_first_match(ledger.accounts, with_id(request.payer()));
        lemma_first_match(ledger.accounts, with_id(request.receiver()));
        lemma_find_after_delta(ledger.accounts, request.payer(), -amount, request.receiver());
        lemma_delta_keeps_consistency(ledger, request.payer(), -amount);
        lemma_delta_keeps_consistency(debited, request.receiver(), amount);

        // The transactions: one more, under an identifier that none had.
        let count = ledger.transactions.len() as int;
        assert forall|i: int, j: int|
            #![trigger after.transactions[i], after.transactions[j]]
            0 <= i < j < after.transactions.len() implies after.transactions[i].transaction_id
            != after.transactions[j].transaction_id by {
            if j == count {
                assert(!with_transaction_id(stamp.transaction_id)(ledger.transactions[i]));
            } else {
                assert(after.transactions[i] == ledger.transactions[i]);
                assert(after.transactions[j] == ledger.transactions[j]);
            }
        }

        // The journal: two more entries, under identifiers that none had.
        let length = ledger.journal.len() as int;
        assert forall|i: int, j: int|
            #![trigger after.journal[i], after.journal[j]]
            0 <= i < j < after.journal.len() implies after.journal[i].entry_id
            != after.journal[j].entry_id by {
            if i < length {
                assert(after.journal[i] == ledger.journal[i]);
                assert(!with_entry_id(stamp.left_entry_id)(ledger.journal[i]));
                assert(!with_entry_id(stamp.right_entry_id)(ledger.journal[i]));
            }
            if j < length {
                assert(after.journal[j] == ledger.journal[j]);
            }
        }

        // The pairs: the new transaction has its own, the others keep theirs.
        lemma_committed_transfer_is_paired(ledger, request, stamp);
        assert forall|i: int| 0 <= i < after.transactions.len() implies after.is_paired(
            #[trigger] after.transactions[i],
        ) by {
            if i < count {
                let earlier = ledger.transactions[i];
                assert(after.transactions[i] == earlier);
                assert(!with_transaction_id(stamp.transaction_id)(earlier));
                assert(ledger.is_paired(earlier));
                lemma_entries_of_after_push(ledger.journal, left, earlier.transaction_id);
                lemma_entries_of_after_push(
                    ledger.journal.push(left),
                    right,
                    earlier.transaction_id,
                );
            }
        }
        assert forall|i: int| 0 <= i < after.journal.len() implies has_match(
            after.transactions,
            with_transaction_id((#[trigger] after.journal[i]).transaction_id),
        ) by {
            if i < length {
                let entry = ledger.journal[i];
                assert(after.journal[i] == entry);
                let owner = choose|k: int|
                    0 <= k < ledger.transactions.len() && with_transaction_id(
                        entry.transaction_id,
                    )(#[trigger] ledger.transactions[k]);
                assert(with_transaction_id(entry.transaction_id)(after.transactions[owner]));
            } else {
                assert(with_transaction_id(stamp.transaction_id)(after.transactions[count]));
            }
        }
    }
}

/// Idempotent lookup: a lookup writes nothing, and what it returns is fixed
/// by what the store that it reads holds. So as long as that store holds the
/// same, the same question has the same answer.
pub proof fn lemma_lookups_are_repeatable(first: LedgerView, second: LedgerView, id: u128)
    ensures
        first.accounts == second.accounts ==> account_lookup(first.accounts, id)
            == account_lookup(second.accounts, id),
        first.transactions == second.transactions ==> transaction_lookup(first.transactions, id)
            == transaction_lookup(second.transactions, id),
        first.journal == second.journal ==> entries_lookup(first.journal, id) == entries_lookup(
            second.journal,
            id,
        ),
{
}

/// Idempotent lookup, for what was committed: a stored transaction and its
/// journal entries are never changed or dropped. Whatever is asked of the
/// ledger afterwards, be it a transfer or the opening of an account, a
/// lookup of a transaction that is there returns what it returned before.
pub proof fn lemma_committed_records_are_kept(
    ledger: LedgerView,
    request: TransferView,
    stamp: TransferStamp,
    account: AccountView,
    id: u128,
)
    requires
        transaction_lookup(ledger.transactions, id) is Ok,
    ensures
        transaction_lookup(after_transfer(ledger, request, stamp).transactions, id)
            == transaction_lookup(ledger.transactions, id),
        entries_lookup(after_transfer(ledger, request, stamp).journal, id) == entries_lookup(
            ledger.journal,
            id,
        ),
        transaction_lookup(after_registration(ledger, account).transactions, id)
            == transaction_lookup(ledger.transactions, id),
        entries_lookup(after_registration(ledger, account).journal, id) == entries_lookup(
            ledger.journal,
            id,
        ),
{
    if transfer_failure(ledger, request, stamp) is None {
        let after = after_transfer(ledger, request, stamp);
        lemma_first_match(ledger.transactions, with_transaction_id(id));
        let at = first_match(ledger.transactions, with_transaction_id(id))->0;
        assert(after.transactions[at] == ledger.transactions[at]);
        assert forall|j: int| 0 <= j < at implies !with_transaction_id(id)(
            #[trigger] after.transactions[j],
        ) by {
            assert(after.transactions[j] == ledger.transactions[j]);
        }
        lemma_first_match_is(after.transactions, with_transaction_id(id), at);
        assert(with_transaction_id(id)(ledger.transactions[at]));
        lemma_entries_of_after_push(ledger.journal, left_entry_of(request, stamp), id);
        lemma_entries_of_after_push(
            ledger.journal.push(left_entry_of(request, stamp)),
            right_entry_of(request, stamp),
            id,
        );
    }
}

/// Idempotent lookup, for accounts: an account that is there stays under
/// its identifier, with its alias. Opening another account leaves it as it
/// was, and so does a transfer between other accounts.
pub proof fn lemma_accounts_are_kept(
    ledger: LedgerView,
    request: TransferView,
    stamp: TransferStamp,
    account: AccountView,
    id: u128,
)
    requires
        account_lookup(ledger.accounts, id) is Ok,
    ensures
        account_lookup(after_registration(ledger, account).accounts, id) == account_lookup(
            ledger.accounts,
            id,
        ),
        id != request.payer() && id != request.receiver() ==> account_lookup(
            after_transfer(ledger, request, stamp).accounts,
            id,
        ) == account_lookup(ledger.accounts, id),
        account_lookup(after_transfer(ledger, request, stamp).accounts, id) is Ok,
        account_lookup(after_transfer(ledger, request, stamp).accounts, id)->Ok_0.alias
            == account_lookup(ledger.accounts, id)->Ok_0.alias,
{
    if save_failure(ledger.accounts, account) is None {
        let after = after_save(ledger.accounts, account);
        lemma_first_match(ledger.accounts, with_id(id));
        let at = first_match(ledger.accounts, with_id(id))->0;
        assert(after[at] == ledger.accounts[at]);
        assert forall|j: int| 0 <= j < at implies !with_id(id)(#[trigger] after[j]) by {
            assert(after[j] == ledger.accounts[j]);
        }
        lemma_first_match_is(after, with_id(id), at);
    }
    if transfer_failure(ledger, request, stamp) is None {
        let amount = request.amount_in_cents as int;
        let debited = with_delta(ledger.accounts, request.payer(), -amount);
        lemma_find_after_delta(ledger.accounts, request.payer(), -amount, id);
        lemma_find_after_delta(debited, request.receiver(), amount, id);
    }
}

/// No transfer is ever reported as left half applied: a refusal names what
/// the accounts object to or which identifier is in use, and nothing else.
pub proof fn lemma_no_transfer_is_left_half_applied(
    ledger: LedgerView,
    request: TransferView,
    stamp: TransferStamp,
)
    ensures
        transfer_failure(ledger, request, stamp) != Some(LedgerError::InternalInconsistency),
        transfer_failure(ledger, request, stamp) is Some ==> after_transfer(
            ledger,
            request,
            stamp,
        ) == ledger,
{
}

} // verus!
