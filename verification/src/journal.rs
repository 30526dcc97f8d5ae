//! Journal entries and the append-only store that holds them.

use crate::clock::Timestamp;
use crate::errors::LedgerError;
use crate::repositories::Repositories;
use crate::search::has_match;
use crate::transactions::MovementType;
use vstd::prelude::*;

verus! {

/// One side of a double entry: what one transaction did to one account.
#[derive(Clone, Copy, Debug, PartialEq, Eq, Structural)]
pub struct JournalEntry {
    pub created_at: Timestamp,
    pub entry_id: u128,
    pub transaction_id: u128,
    pub account_id: u128,
    pub movement_type: MovementType,
    pub amount_in_cents: u64,
}

/// The test that picks out the entries of transaction `transaction_id`.
pub open spec fn of_transaction(transaction_id: u128) -> spec_fn(JournalEntry) -> bool {
    |entry: JournalEntry| entry.transaction_id == transaction_id
}

/// The test that picks out the entries with identifier `entry_id`.
pub open spec fn with_entry_id(entry_id: u128) -> spec_fn(JournalEntry) -> bool {
    |entry: JournalEntry| entry.entry_id == entry_id
}

/// The entries of `journal` that belong to transaction `transaction_id`, in
/// the order in which they were appended.
pub open spec fn entries_of(journal: Seq<JournalEntry>, transaction_id: u128) -> Seq<
    JournalEntry,
> {
    journal.filter(of_transaction(transaction_id))
}

/// What a lookup of the entries of transaction `transaction_id` hands back:
/// its entries in the order in which they were appended, or `NotFound` where
/// it has none.
pub open spec fn entries_lookup(journal: Seq<JournalEntry>, transaction_id: u128) -> Result<
    Seq<JournalEntry>,
    LedgerError,
> {
    if entries_of(journal, transaction_id).len() == 0 {
        Err(LedgerError::NotFound)
    } else {
        Ok(entries_of(journal, transaction_id))
    }
}

/// A result that holds journal entries, as the contracts see it.
pub open spec fn seen_entries(result: Result<Vec<JournalEntry>, LedgerError>) -> Result<
    Seq<JournalEntry>,
    LedgerError,
> {
    match result {
        Ok(entries) => Ok(entries@),
        Err(error) => Err(error),
    }
}

/// Appending an entry adds it to the entries of its own transaction and to
/// those of no other.
pub proof fn lemma_entries_of_after_push(
    journal: Seq<JournalEntry>,
    entry: JournalEntry,
    transaction_id: u128,
)
    ensures
        entries_of(journal.push(entry), transaction_id) == if entry.transaction_id
            == transaction_id {
            entries_of(journal, transaction_id).push(entry)
        } else {
            entries_of(journal, transaction_id)
        },
{
    journal.lemma_filter_push(entry, of_transaction(transaction_id));
}

/// A transaction that no entry refers to has no entries.
pub proof fn lemma_entries_of_unmentioned(journal: Seq<JournalEntry>, transaction_id: u128)
    requires
        !has_match(journal, of_transaction(transaction_id)),
    ensures
        entries_of(journal, transaction_id) == Seq::<JournalEntry>::empty(),
    decreases journal.len(),
{
    if journal.len() == 0 {
        reveal(Seq::filter);
    } else {
        let rest = journal.drop_last();
        assert(journal =~= rest.push(journal.last()));
        assert(!of_transaction(transaction_id)(journal[journal.len() - 1]));
        assert forall|i: int| 0 <= i < rest.len() implies !of_transaction(transaction_id)(
            #[trigger] rest[i],
        ) by {
            assert(!of_transaction(transaction_id)(journal[i]));
        }
        lemma_entries_of_unmentioned(rest, transaction_id);
        lemma_entries_of_after_push(rest, journal.last(), transaction_id);
    }
}

/// The journal of the ledger, in the order in which entries were appended.
pub struct JournalRepository {
    entries: Vec<JournalEntry>,
}

impl View for JournalRepository {
    type V = Seq<JournalEntry>;

    closed spec fn view(&self) -> Seq<JournalEntry> {
        self.entries@
    }
}

impl Default for JournalRepository {
    fn default() -> (repository: JournalRepository)
        ensures
            repository@ == Seq::<JournalEntry>::empty(),
    {
        JournalRepository { entries: Vec::new() }
    }
}

impl JournalRepository {
    /// Appends `entries`, all of them and in their order.
    pub fn save_entries(&mut self, entries: Vec<JournalEntry>)
        ensures
            final(self)@ == old(self)@ + entries@,
    {
        let mut entries = entries;
        self.entries.append(&mut entries);
    }

    /// The entries of transaction `transaction_id`, oldest first.
    pub fn fetch_by_transaction(&self, transaction_id: &u128) -> (found: Vec<JournalEntry>)
        ensures
            found@ == entries_of(self@, *transaction_id),
    {
        let ghost wanted = of_transaction(*transaction_id);
        let mut found: Vec<JournalEntry> = Vec::new();
        let mut i: usize = 0;
        proof {
            reveal(Seq::filter);
            assert(self.entries@.take(0) =~= Seq::<JournalEntry>::empty());
        }
        while i < self.entries.len()
            invariant
                i <= self.entries.len(),
                wanted == of_transaction(*transaction_id),
                found@ == self.entries@.take(i as int).filter(wanted),
            decreases self.entries.len() - i,
        {
            let entry = self.entries[i];
            proof {
                assert(self.entries@.take(i + 1) =~= self.entries@.take(i as int).push(entry));
                self.entries@.take(i as int).lemma_filter_push(entry, wanted);
            }
            if entry.transaction_id == *transaction_id {
                found.push(entry);
            }
            i += 1;
        }
        assert(self.entries@.take(i as int) =~= self.entries@);
        found
    }

    /// Whether some entry belongs to transaction `transaction_id`.
    pub fn mentions_transaction(&self, transaction_id: &u128) -> (mentioned: bool)
        ensures
            mentioned == has_match(self@, of_transaction(*transaction_id)),
    {
        let mut i: usize = 0;
        while i < self.entries.len()
            invariant
                i <= self.entries.len(),
                forall|j: int|
                    0 <= j < i ==> !of_transaction(*transaction_id)(#[trigger] self.entries@[j]),
            decreases self.entries.len() - i,
        {
            if self.entries[i].transaction_id == *transaction_id {
                return true;
            }
            i += 1;
        }
        false
    }

    /// Whether some entry has identifier `entry_id`.
    pub fn holds_entry(&self, entry_id: &u128) -> (held: bool)
        ensures
            held == has_match(self@, with_entry_id(*entry_id)),
    {
        let mut i: usize = 0;
        while i < self.entries.len()
            invariant
                i <= self.entries.len(),
                forall|j: int|
                    0 <= j < i ==> !with_entry_id(*entry_id)(#[trigger] self.entries@[j]),
            decreases self.entries.len() - i,
        {
            if self.entries[i].entry_id == *entry_id {
                return true;
            }
            i += 1;
        }
        false
    }
}

/// The journal entries of transaction `transaction_id`, oldest first;
/// `NotFound` when there are none.
pub fn entries_for_transaction(repos: &Repositories, transaction_id: &u128) -> (result: Result<
    Vec<JournalEntry>,
    LedgerError,
>)
    ensures
        seen_entries(result) == entries_lookup(repos@.journal, *transaction_id),
{
    let entries = repos.journal.fetch_by_transaction(transaction_id);
    if entries.is_empty() {
        return Err(LedgerError::NotFound);
    }
    Ok(entries)
}

} // verus!
