//! The use cases: what a caller can ask of the ledger.
//!
//! Each use case looks the store up, lets the account decide, and writes the
//! result back. What it answers and what it leaves in the store is laid down
//! here as a function of the records; the service then does just that, as far
//! as the store lets it.

use crate::application::dto::CreateAccountRequest;
use crate::application::ports::account_repository::{name_taken, record_of, shows, well_kept};
use crate::application::ports::LocalAccountRepository;
use crate::domain::clock::Timestamp;
use crate::domain::entities::account::verdict;
use crate::domain::entities::Account;
use crate::domain::errors::{DomainError, DomainFailure};
use crate::domain::identity::{hyphenated_text, AccountId};
use crate::domain::names::same_name;
use vstd::prelude::*;

verus! {

/// Why a use case failed: a business rule said no, or the store failed.
#[derive(Debug)]
pub enum AccountServiceError<E> {
    /// A business rule was broken. Safe to show to the caller as it is.
    Domain(DomainError),
    /// The store failed. Its detail is not for the caller's eyes.
    Repository(E),
}

/// What a use case answered, the store's failures set aside: `None` where the
/// store failed, else the account or the rule that was broken.
pub open spec fn answer<T, E>(result: Result<T, AccountServiceError<E>>) -> Option<
    Result<T, DomainFailure>,
> {
    match result {
        Ok(value) => Some(Ok(value)),
        Err(AccountServiceError::Domain(error)) => Some(Err(error@)),
        Err(AccountServiceError::Repository(_)) => None,
    }
}

/// The failure that says no account has the identifier `id`.
pub open spec fn not_found(id: AccountId) -> DomainFailure {
    DomainFailure::AccountNotFound(hyphenated_text(id.value))
}

/// What looking up `id` answers.
pub open spec fn get_outcome(records: Map<AccountId, Account>, id: AccountId) -> Result<
    Account,
    DomainFailure,
> {
    match record_of(records, id) {
        Some(account) => Ok(account),
        None => Err(not_found(id)),
    }
}

/// What opening an account answers, were it opened under `id` at `now`.
pub open spec fn create_outcome(
    records: Map<AccountId, Account>,
    name: String,
    currency: String,
    id: AccountId,
    now: Timestamp,
) -> Result<Account, DomainFailure> {
    if name_taken(records, name@) {
        Err(DomainFailure::AccountAlreadyExists(name@))
    } else {
        Ok(Account::opened(id, name, currency, now))
    }
}

/// What a deposit of `amount` into the account `id` answers at `now`.
pub open spec fn deposit_outcome(
    records: Map<AccountId, Account>,
    id: AccountId,
    amount: int,
    now: Timestamp,
) -> Result<Account, DomainFailure> {
    match record_of(records, id) {
        Some(account) => match account.deposit_outcome(amount) {
            Ok(_) => Ok(account.after_deposit(amount, now)),
            Err(failure) => Err(failure),
        },
        None => Err(not_found(id)),
    }
}

/// What a withdrawal of `amount` from the account `id` answers at `now`.
pub open spec fn withdraw_outcome(
    records: Map<AccountId, Account>,
    id: AccountId,
    amount: int,
    now: Timestamp,
) -> Result<Account, DomainFailure> {
    match record_of(records, id) {
        Some(account) => match account.withdraw_outcome(amount) {
            Ok(_) => Ok(account.after_withdraw(amount, now)),
            Err(failure) => Err(failure),
        },
        None => Err(not_found(id)),
    }
}

/// What deleting the account `id` answers.
pub open spec fn delete_outcome(records: Map<AccountId, Account>, id: AccountId) -> Result<
    (),
    DomainFailure,
> {
    if records.contains_key(id) {
        Ok(())
    } else {
        Err(not_found(id))
    }
}

/// The records after a use case that answered `outcome`: the account it
/// answered is written under its identifier; a failure writes nothing.
pub open spec fn records_after(
    records: Map<AccountId, Account>,
    outcome: Result<Account, DomainFailure>,
) -> Map<AccountId, Account> {
    match outcome {
        Ok(account) => records.insert(account.id, account),
        Err(_) => records,
    }
}

/// The account that a lookup by identifier found, or the failure that says it
/// found none.
pub fn found_or_missing(found: Option<Account>, id: AccountId) -> (result: Result<
    Account,
    DomainError,
>)
    ensures
        verdict(result) == (match found {
            Some(account) => Ok(account),
            None => Err(not_found(id)),
        }),
{
    match found {
        Some(account) => Ok(account),
        None => Err(DomainError::AccountNotFound(id.to_text())),
    }
}

/// The name, if the lookup by that name found no account; else the failure
/// that says the name is in use.
pub fn free_or_taken(found: Option<Account>, name: String) -> (result: Result<String, DomainError>)
    ensures
        verdict(result) == (match found {
            Some(_) => Err(DomainFailure::AccountAlreadyExists(name@)),
            None => Ok(name),
        }),
{
    match found {
        Some(_) => Err(DomainError::AccountAlreadyExists(name)),
        None => Ok(name),
    }
}

/// The use cases over a store of accounts.
pub struct AccountService<R: LocalAccountRepository> {
    repository: R,
}

impl<R: LocalAccountRepository> AccountService<R> {
    /// The store that the service works on.
    pub closed spec fn store(&self) -> R {
        self.repository
    }

    /// The records in the store.
    pub open spec fn records(&self) -> Map<AccountId, Account> {
        self.store().records()
    }

    /// The service is fit for use when its store is.
    pub open spec fn inv(&self) -> bool {
        &&& self.store().inv()
        &&& well_kept(self.records())
    }

    /// Whether the store never fails for reasons of its own.
    pub open spec fn infallible(&self) -> bool {
        self.store().infallible()
    }

    /// A service over `repository`.
    pub fn new(repository: R) -> (service: Self)
        ensures
            service.store() == repository,
    {
        Self { repository }
    }

    /// The store, to read.
    pub fn repository(&self) -> (repository: &R)
        ensures
            *repository == self.store(),
    {
        &self.repository
    }

    /// Gives the store back.
    pub fn into_repository(self) -> (repository: R)
        ensures
            repository == self.store(),
    {
        self.repository
    }

    /// Looks an account up by its identifier.
    pub fn get_account(&self, id: AccountId) -> (result: Result<
        Account,
        AccountServiceError<R::Error>,
    >)
        requires
            self.inv(),
        ensures
            match answer(result) {
                Some(outcome) => outcome == get_outcome(self.records(), id),
                None => !self.infallible(),
            },
    {
        let found = match self.repository.find_by_id(id) {
            Ok(found) => found,
            Err(error) => {
                return Err(AccountServiceError::Repository(error));
            },
        };
        match found_or_missing(found, id) {
            Ok(account) => Ok(account),
            Err(error) => Err(AccountServiceError::Domain(error)),
        }
    }

    /// Lists every account once.
    pub fn get_all_accounts(&self) -> (result: Result<
        Vec<Account>,
        AccountServiceError<R::Error>,
    >)
        requires
            self.inv(),
        ensures
            match result {
                Ok(listing) => shows(listing@, self.records()),
                Err(AccountServiceError::Domain(_)) => false,
                Err(AccountServiceError::Repository(_)) => !self.infallible(),
            },
    {
        match self.repository.find_all() {
            Ok(listing) => Ok(listing),
            Err(error) => Err(AccountServiceError::Repository(error)),
        }
    }
    /// Opens an account of a name that no account bears yet, under a fresh
    /// identifier and dated with the present.
    pub fn create_account(&mut self, request: CreateAccountRequest) -> (result: Result<
        Account,
        AccountServiceError<R::Error>,
    >)
        requires
            old(self).inv(),
        ensures
            final(self).inv(),
            final(self).infallible() == old(self).infallible(),
            match answer(result) {
                Some(outcome) => {
                    &&& exists|id: AccountId, now: Timestamp|
                        outcome == #[trigger] create_outcome(
                            old(self).records(),
                            request.name,
                            request.currency,
                            id,
                            now,
                        )
                    &&& outcome matches Ok(account) ==> !old(self).records().contains_key(
                        account.id,
                    )
                    &&& final(self).records() == records_after(old(self).records(), outcome)
                },
                None => old(self).infallible() ==> {
                    &&& !name_taken(old(self).records(), request.name@)
                    &&& exists|id: AccountId| #[trigger] old(self).records().contains_key(id)
                    &&& final(self).records() == old(self).records()
                },
            },
    {
        let id = AccountId::random();
        let now = Timestamp::now();
        self.create_account_as(request, id, now)
    }

    /// Opens an account of a name that no account bears yet, under the
    /// identifier `id` and dated `now`. The store refuses an identifier that
    /// it holds already.
    pub fn create_account_as(
        &mut self,
        request: CreateAccountRequest,
        id: AccountId,
        now: Timestamp,
    ) -> (result: Result<Account, AccountServiceError<R::Error>>)
        requires
            old(self).inv(),
        ensures
            final(self).inv(),
            final(self).infallible() == old(self).infallible(),
            match answer(result) {
                Some(outcome) => {
                    &&& outcome == create_outcome(
                        old(self).records(),
                        request.name,
                        request.currency,
                        id,
                        now,
                    )
                    &&& outcome is Ok ==> !old(self).records().contains_key(id)
                    &&& final(self).records() == records_after(old(self).records(), outcome)
                },
                None => old(self).infallible() ==> {
                    &&& !name_taken(old(self).records(), request.name@)
                    &&& old(self).records().contains_key(id)
                    &&& final(self).records() == old(self).records()
                },
            },
    {
        let found = match self.repository.find_by_name(request.name.as_str()) {
            Ok(found) => found,
            Err(error) => {
                return Err(AccountServiceError::Repository(error));
            },
        };
        proof {
            if found is Some {
                assert(self.records().contains_key(found->0.id));
            }
        }
        let name = match free_or_taken(found, request.name) {
            Ok(name) => name,
            Err(error) => {
                return Err(AccountServiceError::Domain(error));
            },
        };
        let account = Account::open(id, name, request.currency, now);
        match self.repository.create(&account) {
            Ok(()) => Ok(account),
            Err(error) => Err(AccountServiceError::Repository(error)),
        }
    }

    /// Adds `amount` to the balance of the account `id`, dated with the
    /// present.
    pub fn deposit(&mut self, id: AccountId, amount: i64) -> (result: Result<
        Account,
        AccountServiceError<R::Error>,
    >)
        requires
            old(self).inv(),
            record_of(old(self).records(), id) matches Some(account) ==> account.balance + amount
                <= i64::MAX,
        ensures
            final(self).inv(),
            final(self).infallible() == old(self).infallible(),
            match answer(result) {
                Some(outcome) => {
                    &&& exists|now: Timestamp|
                        outcome == #[trigger] deposit_outcome(
                            old(self).records(),
                            id,
                            amount as int,
                            now,
                        )
                    &&& final(self).records() == records_after(old(self).records(), outcome)
                },
                None => !old(self).infallible(),
            },
    {
        let now = Timestamp::now();
        self.deposit_at(id, amount, now)
    }

    /// Adds `amount` to the balance of the account `id`, dated `now`. Where
    /// the account refuses, the store is not written.
    pub fn deposit_at(&mut self, id: AccountId, amount: i64, now: Timestamp) -> (result: Result<
        Account,
        AccountServiceError<R::Error>,
    >)
        requires
            old(self).inv(),
            record_of(old(self).records(), id) matches Some(account) ==> account.balance + amount
                <= i64::MAX,
        ensures
            final(self).inv(),
            final(self).infallible() == old(self).infallible(),
            match answer(result) {
                Some(outcome) => {
                    &&& outcome == deposit_outcome(old(self).records(), id, amount as int, now)
                    &&& final(self).records() == records_after(old(self).records(), outcome)
                },
                None => !old(self).infallible(),
            },
    {
        let found = match self.repository.find_by_id(id) {
            Ok(found) => found,
            Err(error) => {
                return Err(AccountServiceError::Repository(error));
            },
        };
        let mut account = match found_or_missing(found, id) {
            Ok(account) => account,
            Err(error) => {
                return Err(AccountServiceError::Domain(error));
            },
        };
        match account.deposit_at(amount, now) {
            Ok(()) => {},
            Err(error) => {
                return Err(AccountServiceError::Domain(error));
            },
        }
        match self.repository.update(&account) {
            Ok(()) => Ok(account),
            Err(error) => Err(AccountServiceError::Repository(error)),
        }
    }

    /// Takes `amount` from the balance of the account `id`, dated with the
    /// present.
    pub fn withdraw(&mut self, id: AccountId, amount: i64) -> (result: Result<
        Account,
        AccountServiceError<R::Error>,
    >)
        requires
            old(self).inv(),
        ensures
            final(self).inv(),
            final(self).infallible() == old(self).infallible(),
            match answer(result) {
                Some(outcome) => {
                    &&& exists|now: Timestamp|
                        outcome == #[trigger] withdraw_outcome(
                            old(self).records(),
                            id,
                            amount as int,
                            now,
                        )
                    &&& final(self).records() == records_after(old(self).records(), outcome)
                },
                None => !old(self).infallible(),
            },
    {
        let now = Timestamp::now();
        self.withdraw_at(id, amount, now)
    }

    /// Takes `amount` from the balance of the account `id`, dated `now`.
    /// Where the account refuses, the store is not written.
    pub fn withdraw_at(&mut self, id: AccountId, amount: i64, now: Timestamp) -> (result: Result<
        Account,
        AccountServiceError<R::Error>,
    >)
        requires
            old(self).inv(),
        ensures
            final(self).inv(),
            final(self).infallible() == old(self).infallible(),
            match answer(result) {
                Some(outcome) => {
                    &&& outcome == withdraw_outcome(old(self).records(), id, amount as int, now)
                    &&& final(self).records() == records_after(old(self).records(), outcome)
                },
                None => !old(self).infallible(),
            },
    {
        let found = match self.repository.find_by_id(id) {
            Ok(found) => found,
            Err(error) => {
                return Err(AccountServiceError::Repository(error));
            },
        };
        let mut account = match found_or_missing(found, id) {
            Ok(account) => account,
            Err(error) => {
                return Err(AccountServiceError::Domain(error));
            },
        };
        match account.withdraw_at(amount, now) {
            Ok(()) => {},
            Err(error) => {
                return Err(AccountServiceError::Domain(error));
            },
        }
        match self.repository.update(&account) {
            Ok(()) => Ok(account),
            Err(error) => Err(AccountServiceError::Repository(error)),
        }
    }

    /// Deletes the account `id`.
    pub fn delete_account(&mut self, id: AccountId) -> (result: Result<
        (),
        AccountServiceError<R::Error>,
    >)
        requires
            old(self).inv(),
        ensures
            final(self).inv(),
            final(self).infallible() == old(self).infallible(),
            match answer(result) {
                Some(outcome) => {
                    &&& outcome == delete_outcome(old(self).records(), id)
                    &&& final(self).records() == old(self).records().remove(id)
                },
                None => !old(self).infallible(),
            },
    {
        let found = match self.repository.find_by_id(id) {
            Ok(found) => found,
            Err(error) => {
                return Err(AccountServiceError::Repository(error));
            },
        };
        match found_or_missing(found, id) {
            Ok(_) => {},
            Err(error) => {
                proof {
                    assert(self.records().remove(id) =~= self.records());
                }
                return Err(AccountServiceError::Domain(error));
            },
        }
        match self.repository.delete(id) {
            Ok(()) => Ok(()),
            Err(error) => Err(AccountServiceError::Repository(error)),
        }
    }
}

/// Once an account is opened, opening another of the same name in whatever
/// case is refused, because the name is in use.
pub proof fn second_of_a_name_is_refused(
    records: Map<AccountId, Account>,
    first: CreateAccountRequest,
    first_id: AccountId,
    first_now: Timestamp,
    second: CreateAccountRequest,
    second_id: AccountId,
    second_now: Timestamp,
)
    requires
        same_name(first.name@, second.name@),
        create_outcome(records, first.name, first.currency, first_id, first_now) is Ok,
    ensures
        create_outcome(
            records_after(
                records,
                create_outcome(records, first.name, first.currency, first_id, first_now),
            ),
            second.name,
            second.currency,
            second_id,
            second_now,
        ) == Err::<Account, DomainFailure>(DomainFailure::AccountAlreadyExists(second.name@)),
{
    let opened = Account::opened(first_id, first.name, first.currency, first_now);
    let later = records.insert(first_id, opened);
    assert(later.contains_key(first_id) && same_name(later[first_id].name@, second.name@));
}

/// An identifier that no account has cannot be deleted, and one that was
/// deleted cannot be looked up: both fail for want of the account.
pub proof fn deleted_account_is_not_found(records: Map<AccountId, Account>, id: AccountId)
    ensures
        !records.contains_key(id) ==> delete_outcome(records, id) == Err::<(), DomainFailure>(
            not_found(id),
        ),
        get_outcome(records.remove(id), id) == Err::<Account, DomainFailure>(not_found(id)),
{
}

/// Whether a name is in use does not depend on the case it is asked in.
pub proof fn name_is_taken_in_any_case(
    records: Map<AccountId, Account>,
    name: Seq<char>,
    other: Seq<char>,
)
    requires
        same_name(name, other),
    ensures
        name_taken(records, name) == name_taken(records, other),
{
    if name_taken(records, name) {
        let id = choose|id: AccountId| #[trigger]
            records.contains_key(id) && same_name(records[id].name@, name);
        assert(records.contains_key(id) && same_name(records[id].name@, other));
    }
    if name_taken(records, other) {
        let id = choose|id: AccountId| #[trigger]
            records.contains_key(id) && same_name(records[id].name@, other);
        assert(records.contains_key(id) && same_name(records[id].name@, name));
    }
}

/// In a service that is fit for use no account owes anything, and none was
/// changed before it was created. Every use case leaves the service fit for
/// use.
pub proof fn no_balance_is_negative<R: LocalAccountRepository>(
    service: AccountService<R>,
    id: AccountId,
)
    requires
        service.inv(),
        service.records().contains_key(id),
    ensures
        service.records()[id].balance >= 0,
        service.records()[id].inv(),
        service.records()[id].id == id,
{
}

} // verus!
