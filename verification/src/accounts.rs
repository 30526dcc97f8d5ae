//! Accounts and the store that holds them.

use crate::errors::{outcome, LedgerError};
use crate::identifiers::{fresh_identifier, is_random_identifier};
use crate::laws::lemma_registration_keeps_consistency;
use crate::repositories::{LedgerView, Repositories};
use crate::search::{
    first_match, first_matching, has_match, lemma_first_match, lemma_first_match_is,
    lemma_first_match_none,
};
use vstd::prelude::*;

verus! {

/// A request to open an account.
#[derive(Debug)]
pub struct CreateNewAccount {
    pub alias: String,
    pub balance: Option<u64>,
}

impl CreateNewAccount {
    /// The account that this request asks for, under identifier
    /// `account_id`: its balance is the one asked for, else zero.
    pub open spec fn account(&self, account_id: u128) -> AccountView {
        AccountView {
            account_id,
            alias: self.alias@,
            balance: match self.balance {
                Some(balance) => balance as int,
                None => 0,
            },
        }
    }
}

/// An account as the contracts see it: the alias as a sequence of
/// characters, the balance as a mathematical integer.
pub struct AccountView {
    pub account_id: u128,
    pub alias: Seq<char>,
    pub balance: int,
}

impl AccountView {
    /// This account with `delta` added to its balance.
    pub open spec fn adjusted(self, delta: int) -> AccountView {
        AccountView { balance: self.balance + delta, ..self }
    }
}

/// A named account with a balance in cents.
#[derive(Debug)]
pub struct Account {
    pub account_id: u128,
    pub alias: String,
    pub balance: u64,
}

impl View for Account {
    type V = AccountView;

    open spec fn view(&self) -> AccountView {
        AccountView {
            account_id: self.account_id,
            alias: self.alias@,
            balance: self.balance as int,
        }
    }
}

impl Clone for Account {
    fn clone(&self) -> (copy: Account)
        ensures
            copy == *self,
    {
        Account { account_id: self.account_id, alias: self.alias.clone(), balance: self.balance }
    }
}

impl Account {
    /// An account under a freshly drawn identifier.
    pub fn new(alias: &str, balance: u64) -> (account: Account)
        ensures
            account.alias@ == alias@,
            account.balance == balance,
            is_random_identifier(account.account_id),
    {
        Account { account_id: fresh_identifier(), alias: alias.to_owned(), balance }
    }

    /// Adds `amount` to the balance, unless the sum leaves the range of `u64`.
    pub fn add_balance(&mut self, amount: u64) -> (result: Result<(), LedgerError>)
        ensures
            result == outcome(
                if old(self).balance + amount > u64::MAX {
                    Some(LedgerError::BalanceOverflow(old(self).account_id))
                } else {
                    None
                },
            ),
            result is Ok ==> final(self)@ == old(self)@.adjusted(amount as int),
            result is Err ==> *final(self) == *old(self),
    {
        match self.balance.checked_add(amount) {
            Some(balance) => {
                self.balance = balance;
                Ok(())
            },
            None => Err(LedgerError::BalanceOverflow(self.account_id)),
        }
    }

    /// Takes `amount` from the balance, unless the balance is smaller.
    pub fn subtract_balance(&mut self, amount: u64) -> (result: Result<(), LedgerError>)
        ensures
            result == outcome(
                if old(self).balance < amount {
                    Some(LedgerError::InsufficientFunds(old(self).account_id))
                } else {
                    None
                },
            ),
            result is Ok ==> final(self)@ == old(self)@.adjusted(-(amount as int)),
            result is Err ==> *final(self) == *old(self),
    {
        match self.balance.checked_sub(amount) {
            Some(balance) => {
                self.balance = balance;
                Ok(())
            },
            None => Err(LedgerError::InsufficientFunds(self.account_id)),
        }
    }
}

/// The test that picks out the accounts with identifier `id`.
pub open spec fn with_id(id: u128) -> spec_fn(AccountView) -> bool {
    |account: AccountView| account.account_id == id
}

/// The test that picks out the accounts with alias `alias`.
pub open spec fn with_alias(alias: Seq<char>) -> spec_fn(AccountView) -> bool {
    |account: AccountView| account.alias == alias
}

/// The first of `accounts` that has identifier `id`, if any.
pub open spec fn find_by_id(accounts: Seq<AccountView>, id: u128) -> Option<AccountView> {
    first_matching(accounts, with_id(id))
}

/// The first of `accounts` that has alias `alias`, if any.
pub open spec fn find_by_alias(accounts: Seq<AccountView>, alias: Seq<char>) -> Option<
    AccountView,
> {
    first_matching(accounts, with_alias(alias))
}

/// Why `account` cannot join `accounts`, if it cannot: its alias is taken,
/// or else its identifier is.
pub open spec fn save_failure(accounts: Seq<AccountView>, account: AccountView) -> Option<
    LedgerError,
> {
    if has_match(accounts, with_alias(account.alias)) {
        Some(LedgerError::AliasTaken)
    } else if has_match(accounts, with_id(account.account_id)) {
        Some(LedgerError::IdentifierInUse(account.account_id))
    } else {
        None
    }
}

/// `accounts` after an attempt to add `account`.
pub open spec fn after_save(accounts: Seq<AccountView>, account: AccountView) -> Seq<
    AccountView,
> {
    if save_failure(accounts, account) is None {
        accounts.push(account)
    } else {
        accounts
    }
}

/// What an attempt to add `account` hands back: the account, or the reason
/// for the refusal.
pub open spec fn save_result(accounts: Seq<AccountView>, account: AccountView) -> Result<
    AccountView,
    LedgerError,
> {
    match save_failure(accounts, account) {
        Some(error) => Err(error),
        None => Ok(account),
    }
}

/// What a lookup of account `id` hands back: the first account with that
/// identifier, or `NotFound`.
pub open spec fn account_lookup(accounts: Seq<AccountView>, id: u128) -> Result<
    AccountView,
    LedgerError,
> {
    match find_by_id(accounts, id) {
        Some(account) => Ok(account),
        None => Err(LedgerError::NotFound),
    }
}

/// A result that holds an account, as the contracts see it.
pub open spec fn seen_account(result: Result<Account, LedgerError>) -> Result<AccountView, LedgerError> {
    match result {
        Ok(account) => Ok(account@),
        Err(error) => Err(error),
    }
}

/// The sum of all balances.
pub open spec fn total_balance(accounts: Seq<AccountView>) -> int
    decreases accounts.len(),
{
    if accounts.len() == 0 {
        0
    } else {
        total_balance(accounts.drop_last()) + accounts.last().balance
    }
}

/// The ledger after an attempt to add `account` to its accounts.
pub open spec fn after_registration(ledger: LedgerView, account: AccountView) -> LedgerView {
    LedgerView { accounts: after_save(ledger.accounts, account), ..ledger }
}

/// Why `delta` cannot be added to the balance of account `id`, if it
/// cannot: there is no such account, or the balance would drop below zero,
/// or it would leave the range of `u64`.
pub open spec fn delta_failure(accounts: Seq<AccountView>, id: u128, delta: int) -> Option<
    LedgerError,
> {
    match find_by_id(accounts, id) {
        None => Some(LedgerError::NotFound),
        Some(account) => if account.balance + delta < 0 {
            Some(LedgerError::InsufficientFunds(id))
        } else if account.balance + delta > u64::MAX {
            Some(LedgerError::BalanceOverflow(id))
        } else {
            None
        },
    }
}

/// `accounts` with `delta` added to the balance of account `id`.
pub open spec fn with_delta(accounts: Seq<AccountView>, id: u128, delta: int) -> Seq<
    AccountView,
> {
    match first_match(accounts, with_id(id)) {
        Some(i) => accounts.update(i, accounts[i].adjusted(delta)),
        None => accounts,
    }
}

/// `accounts` after an attempt to add `delta` to the balance of account `id`.
pub open spec fn after_delta(accounts: Seq<AccountView>, id: u128, delta: int) -> Seq<
    AccountView,
> {
    if delta_failure(accounts, id, delta) is None {
        with_delta(accounts, id, delta)
    } else {
        accounts
    }
}

/// The accounts of the ledger, in the order in which they were opened.
pub struct AccountsRepository {
    pub accounts: Vec<Account>,
}

impl View for AccountsRepository {
    type V = Seq<AccountView>;

    open spec fn view(&self) -> Seq<AccountView> {
        self.accounts@.map_values(|account: Account| account@)
    }
}

impl Default for AccountsRepository {
    fn default() -> (repository: AccountsRepository)
        ensures
            repository@ == Seq::<AccountView>::empty(),
    {
        AccountsRepository { accounts: Vec::new() }
    }
}

impl AccountsRepository {
    /// Where the first account with identifier `account_id` stands.
    fn position_by_id(&self, account_id: &u128) -> (position: Option<usize>)
        ensures
            match position {
                Some(i) => first_match(self@, with_id(*account_id)) == Some(i as int),
                None => first_match(self@, with_id(*account_id)) is None,
            },
            position matches Some(i) ==> i < self.accounts.len(),
    {
        let mut i: usize = 0;
        while i < self.accounts.len()
            invariant
                i <= self.accounts.len(),
                forall|j: int| 0 <= j < i ==> !with_id(*account_id)(#[trigger] self@[j]),
            decreases self.accounts.len() - i,
        {
            if self.accounts[i].account_id == *account_id {
                proof {
                    lemma_first_match_is(self@, with_id(*account_id), i as int);
                }
                return Some(i);
            }
            i += 1;
        }
        proof {
            lemma_first_match_none(self@, with_id(*account_id));
        }
        None
    }

    /// Where the first account with alias `alias` stands.
    fn position_by_alias(&self, alias: &str) -> (position: Option<usize>)
        ensures
            match position {
                Some(i) => first_match(self@, with_alias(alias@)) == Some(i as int),
                None => first_match(self@, with_alias(alias@)) is None,
            },
            position matches Some(i) ==> i < self.accounts.len(),
    {
        let wanted = alias.to_owned();
        let mut i: usize = 0;
        while i < self.accounts.len()
            invariant
                i <= self.accounts.len(),
                wanted@ == alias@,
                forall|j: int| 0 <= j < i ==> !with_alias(alias@)(#[trigger] self@[j]),
            decreases self.accounts.len() - i,
        {
            if self.accounts[i].alias == wanted {
                proof {
                    lemma_first_match_is(self@, with_alias(alias@), i as int);
                }
                return Some(i);
            }
            i += 1;
        }
        proof {
            lemma_first_match_none(self@, with_alias(alias@));
        }
        None
    }

    /// Adds `account`, unless its alias or its identifier is already held.
    pub fn save_account(&mut self, account: Account) -> (result: Result<(), LedgerError>)
        ensures
            result == outcome(save_failure(old(self)@, account@)),
            final(self)@ == after_save(old(self)@, account@),
    {
        proof {
            lemma_first_match(self@, with_alias(account@.alias));
            lemma_first_match(self@, with_id(account@.account_id));
        }
        if self.position_by_alias(account.alias.as_str()).is_some() {
            return Err(LedgerError::AliasTaken);
        }
        if self.position_by_id(&account.account_id).is_some() {
            return Err(LedgerError::IdentifierInUse(account.account_id));
        }
        self.accounts.push(account);
        assert(self@ =~= old(self)@.push(account@));
        Ok(())
    }

    /// The first account with identifier `account_id`.
    pub fn fetch_by_id(&self, account_id: &u128) -> (found: Option<&Account>)
        ensures
            match found {
                Some(account) => find_by_id(self@, *account_id) == Some(account@),
                None => find_by_id(self@, *account_id) is None,
            },
    {
        match self.position_by_id(account_id) {
            Some(i) => Some(&self.accounts[i]),
            None => None,
        }
    }

    /// The first account with alias `alias`.
    pub fn fetch_by_alias(&self, alias: &str) -> (found: Option<&Account>)
        ensures
            match found {
                Some(account) => find_by_alias(self@, alias@) == Some(account@),
                None => find_by_alias(self@, alias@) is None,
            },
    {
        match self.position_by_alias(alias) {
            Some(i) => Some(&self.accounts[i]),
            None => None,
        }
    }

    /// Adds `signed_amount` to the balance of the first account with
    /// identifier `account_id`, in one step: the balance either takes the
    /// whole change or stays as it was.
    pub fn apply_delta(&mut self, account_id: &u128, signed_amount: i128) -> (result: Result<
        (),
        LedgerError,
    >)
        ensures
            result == outcome(delta_failure(old(self)@, *account_id, signed_amount as int)),
            final(self)@ == after_delta(old(self)@, *account_id, signed_amount as int),
    {
        let position = self.position_by_id(account_id);
        match position {
            None => Err(LedgerError::NotFound),
            Some(i) => {
                let result = if signed_amount >= 0 {
                    if signed_amount > u64::MAX as i128 {
                        Err(LedgerError::BalanceOverflow(*account_id))
                    } else {
                        self.accounts[i].add_balance(signed_amount as u64)
                    }
                } else {
                    if signed_amount < -(u64::MAX as i128) {
                        Err(LedgerError::InsufficientFunds(*account_id))
                    } else {
                        self.accounts[i].subtract_balance((-signed_amount) as u64)
                    }
                };
                proof {
                    if result is Ok {
                        assert(self@ =~= old(self)@.update(
                            i as int,
                            old(self)@[i as int].adjusted(signed_amount as int),
                        ));
                    } else {
                        assert(self@ =~= old(self)@);
                    }
                }
                result
            },
        }
    }
}

/// Opens the account that `payload` asks for under identifier `account_id`,
/// and hands it back; or refuses, and leaves the ledger as it was.
pub fn open_account(repos: &mut Repositories, payload: CreateNewAccount, account_id: u128) -> (result:
    Result<Account, LedgerError>)
    ensures
        seen_account(result) == save_result(old(repos)@.accounts, payload.account(account_id)),
        final(repos)@ == after_registration(old(repos)@, payload.account(account_id)),
        old(repos)@.consistent() ==> final(repos)@.consistent(),
{
    proof {
        if repos@.consistent() {
            lemma_registration_keeps_consistency(repos@, payload.account(account_id));
        }
    }
    let account = Account {
        account_id,
        alias: payload.alias,
        balance: match payload.balance {
            Some(balance) => balance,
            None => 0,
        },
    };
    match repos.accounts.save_account(account.clone()) {
        Ok(()) => Ok(account),
        Err(error) => Err(error),
    }
}

/// Opens the account that `payload` asks for under a freshly drawn
/// identifier.
///
/// Whether the alias is taken is decided by the request and the ledger
/// alone. Beyond that the outcome is that of `open_account` for whatever
/// identifier was drawn.
pub fn new_account(repos: &mut Repositories, payload: CreateNewAccount) -> (result: Result<
    Account,
    LedgerError,
>)
    ensures
        has_match(old(repos)@.accounts, with_alias(payload.alias@)) ==> seen_account(result) == Err::<
            AccountView,
            LedgerError,
        >(LedgerError::AliasTaken) && final(repos)@ == old(repos)@,
        exists|account_id: u128|
            is_random_identifier(account_id) && seen_account(result) == #[trigger] save_result(
                old(repos)@.accounts,
                payload.account(account_id),
            ) && final(repos)@ == after_registration(old(repos)@, payload.account(account_id)),
        old(repos)@.consistent() ==> final(repos)@.consistent(),
{
    let account_id = fresh_identifier();
    open_account(repos, payload, account_id)
}

/// The account with identifier `account_id`.
pub fn account_details(repos: &Repositories, account_id: &u128) -> (result: Result<
    Account,
    LedgerError,
>)
    ensures
        seen_account(result) == account_lookup(repos@.accounts, *account_id),
{
    match repos.accounts.fetch_by_id(account_id) {
        Some(account) => Ok(account.clone()),
        None => Err(LedgerError::NotFound),
    }
}

} // verus!
