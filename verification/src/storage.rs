//! A store that keeps its accounts in a list in memory.

use crate::application::ports::account_repository::{record_of, well_kept};
use crate::application::ports::LocalAccountRepository;
use crate::domain::entities::account::verdict;
use crate::domain::entities::Account;
use crate::domain::errors::{DomainError, DomainFailure};
use crate::domain::identity::{parsed_uuid, AccountId};
use crate::domain::names::{names_match, same_name};
use vstd::prelude::*;

verus! {

/// The accounts in the order in which they were added.
pub struct Storage {
    accounts: Vec<Account>,
}

/// Why the list refused a record.
#[derive(Debug, Clone, Copy, PartialEq, Eq)]
pub enum StorageError {
    /// An account with this identifier is in the list already.
    DuplicateId(AccountId),
}

/// "Has the identifier `id`", as a property of accounts.
pub open spec fn with_id(id: AccountId) -> spec_fn(Account) -> bool {
    |account: Account| account.id == id
}

/// "Bears `name`, in whatever case", as a property of accounts.
pub open spec fn named(name: Seq<char>) -> spec_fn(Account) -> bool {
    |account: Account| same_name(account.name@, name)
}

/// Where in `list` the first account stands that is `wanted`.
pub open spec fn first_index(list: Seq<Account>, wanted: spec_fn(Account) -> bool) -> Option<int>
    decreases list.len(),
{
    if list.len() == 0 {
        None
    } else {
        match first_index(list.drop_last(), wanted) {
            Some(index) => Some(index),
            None => if wanted(list.last()) {
                Some(list.len() - 1)
            } else {
                None
            },
        }
    }
}

/// The first account in `list` that is `wanted`.
pub open spec fn first_match(list: Seq<Account>, wanted: spec_fn(Account) -> bool) -> Option<
    Account,
> {
    match first_index(list, wanted) {
        Some(index) => Some(list[index]),
        None => None,
    }
}

/// `first_index` finds the least index of a wanted account, and finds none
/// only where none is wanted.
pub proof fn first_index_is_least(list: Seq<Account>, wanted: spec_fn(Account) -> bool)
    ensures
        match first_index(list, wanted) {
            Some(index) => {
                &&& 0 <= index < list.len()
                &&& wanted(list[index])
                &&& forall|j: int| 0 <= j < index ==> !wanted(#[trigger] list[j])
            },
            None => forall|j: int| 0 <= j < list.len() ==> !wanted(#[trigger] list[j]),
        },
    decreases list.len(),
{
    if list.len() > 0 {
        let front = list.drop_last();
        first_index_is_least(front, wanted);
        assert(forall|j: int| 0 <= j < front.len() ==> front[j] == list[j]);
    }
}

/// An index at which a wanted account stands, with none wanted before it, is
/// the one that `first_index` finds.
pub proof fn first_index_found(list: Seq<Account>, wanted: spec_fn(Account) -> bool, index: int)
    requires
        0 <= index < list.len(),
        wanted(list[index]),
        forall|j: int| 0 <= j < index ==> !wanted(#[trigger] list[j]),
    ensures
        first_index(list, wanted) == Some(index),
{
    first_index_is_least(list, wanted);
}

/// A list is orderly when each account in it is in good standing and no
/// identifier occurs twice.
pub open spec fn orderly(list: Seq<Account>) -> bool {
    &&& forall|i: int| 0 <= i < list.len() ==> (#[trigger] list[i]).inv()
    &&& forall|i: int, j: int|
        0 <= i < j < list.len() ==> (#[trigger] list[i]).id != (#[trigger] list[j]).id
}

/// The accounts of a list as records: each identifier with the first account
/// that has it.
pub open spec fn filed(list: Seq<Account>) -> Map<AccountId, Account> {
    Map::new(
        |id: AccountId| first_match(list, with_id(id)) is Some,
        |id: AccountId| first_match(list, with_id(id))->0,
    )
}

/// In an orderly list every account is the record of its identifier.
pub proof fn orderly_list_files_each(list: Seq<Account>, index: int)
    requires
        orderly(list),
        0 <= index < list.len(),
    ensures
        first_index(list, with_id(list[index].id)) == Some(index),
        record_of(filed(list), list[index].id) == Some(list[index]),
{
    first_index_found(list, with_id(list[index].id), index);
}

/// The records of an orderly list are well kept.
pub proof fn orderly_list_is_well_kept(list: Seq<Account>)
    requires
        orderly(list),
    ensures
        well_kept(filed(list)),
{
    let ids = list.map_values(|account: Account| account.id);
    assert forall|id: AccountId| #[trigger] filed(list).contains_key(id) implies filed(list)[id].id
        == id && filed(list)[id].inv() && ids.to_set().contains(id) by {
        first_index_is_least(list, with_id(id));
        let index = first_index(list, with_id(id))->0;
        assert(ids[index] == id);
    }
    vstd::seq_lib::seq_to_set_is_finite(ids);
    vstd::set_lib::lemma_set_subset_finite(ids.to_set(), filed(list).dom());
}

/// An account added under an identifier that the list lacks is one record
/// more.
pub proof fn filed_after_push(list: Seq<Account>, account: Account)
    requires
        first_index(list, with_id(account.id)) is None,
    ensures
        filed(list.push(account)) == filed(list).insert(account.id, account),
{
    let longer = list.push(account);
    assert(longer.drop_last() =~= list);
    assert forall|id: AccountId|
        first_match(longer, with_id(id)) == (if id == account.id {
            Some(account)
        } else {
            first_match(list, with_id(id))
        }) by {
        first_index_is_least(list, with_id(id));
    }
    assert(filed(longer) =~= filed(list).insert(account.id, account));
}

/// An account written over the first one of its identifier replaces that
/// record and no other.
pub proof fn filed_after_update(list: Seq<Account>, index: int, account: Account)
    requires
        first_index(list, with_id(account.id)) == Some(index),
    ensures
        filed(list.update(index, account)) == filed(list).insert(account.id, account),
{
    let changed = list.update(index, account);
    first_index_is_least(list, with_id(account.id));
    assert forall|id: AccountId|
        first_match(changed, with_id(id)) == (if id == account.id {
            Some(account)
        } else {
            first_match(list, with_id(id))
        }) by {
        first_index_is_least(list, with_id(id));
        first_index_is_least(changed, with_id(id));
        if id == account.id {
            first_index_found(changed, with_id(id), index);
        } else {
            match first_index(list, with_id(id)) {
                Some(found) => {
                    first_index_found(changed, with_id(id), found);
                },
                None => {},
            }
        }
    }
    assert(filed(changed) =~= filed(list).insert(account.id, account));
}

/// Removing from an orderly list the account of an identifier removes that
/// record and no other.
pub proof fn filed_after_remove(list: Seq<Account>, index: int, id: AccountId)
    requires
        orderly(list),
        first_index(list, with_id(id)) == Some(index),
    ensures
        filed(list.remove(index)) == filed(list).remove(id),
        orderly(list.remove(index)),
{
    let shorter = list.remove(index);
    first_index_is_least(list, with_id(id));
    assert forall|other: AccountId|
        first_match(shorter, with_id(other)) == (if other == id {
            None
        } else {
            first_match(list, with_id(other))
        }) by {
        first_index_is_least(list, with_id(other));
        first_index_is_least(shorter, with_id(other));
        if other != id {
            match first_index(list, with_id(other)) {
                Some(found) => {
                    let moved = if found < index {
                        found
                    } else {
                        found - 1
                    };
                    first_index_found(shorter, with_id(other), moved);
                },
                None => {},
            }
        }
    }
    assert(filed(shorter) =~= filed(list).remove(id));
}

/// A name finds the same account in whatever case it is asked for.
pub proof fn name_is_found_in_any_case(list: Seq<Account>, name: Seq<char>, other: Seq<char>)
    requires
        same_name(name, other),
    ensures
        first_index(list, named(name)) == first_index(list, named(other)),
        first_match(list, named(name)) == first_match(list, named(other)),
    decreases list.len(),
{
    if list.len() > 0 {
        name_is_found_in_any_case(list.drop_last(), name, other);
    }
}

impl View for Storage {
    type V = Seq<Account>;

    closed spec fn view(&self) -> Seq<Account> {
        self.accounts@
    }
}

impl Storage {
    /// A store without accounts.
    pub fn new() -> (storage: Storage)
        ensures
            storage@ == Seq::<Account>::empty(),
    {
        Storage { accounts: Vec::new() }
    }

    /// A store of the given accounts, in their order.
    pub fn from_accounts(accounts: Vec<Account>) -> (storage: Storage)
        ensures
            storage@ == accounts@,
    {
        Storage { accounts }
    }

    /// Adds an account at the end, whatever the store holds already.
    pub fn add_account(&mut self, account: Account)
        ensures
            final(self)@ == old(self)@.push(account),
    {
        self.accounts.push(account);
    }

    /// Where the first account with the identifier `id` stands.
    fn position_of(&self, id: &AccountId) -> (position: Option<usize>)
        ensures
            match position {
                Some(index) => index < self@.len() && first_index(self@, with_id(*id)) == Some(
                    index as int,
                ),
                None => first_index(self@, with_id(*id)) is None,
            },
    {
        let mut index: usize = 0;
        while index < self.accounts.len()
            invariant
                index <= self.accounts.len(),
                forall|j: int| 0 <= j < index ==> !with_id(*id)(#[trigger] self@[j]),
            decreases self.accounts.len() - index,
        {
            if self.accounts[index].id == *id {
                proof {
                    first_index_found(self@, with_id(*id), index as int);
                }
                return Some(index);
            }
            index += 1;
        }
        proof {
            first_index_is_least(self@, with_id(*id));
        }
        None
    }

    /// The first account with the identifier `id`.
    pub fn get_account(&self, id: &AccountId) -> (found: Option<&Account>)
        ensures
            match found {
                Some(account) => first_match(self@, with_id(*id)) == Some(*account),
                None => first_match(self@, with_id(*id)) is None,
            },
    {
        match self.position_of(id) {
            Some(index) => Some(&self.accounts[index]),
            None => None,
        }
    }

    /// Every account, in the order in which they were added.
    pub fn get_all_accounts(&self) -> (accounts: &[Account])
        ensures
            accounts@ == self@,
    {
        self.accounts.as_slice()
    }

    /// The first account that bears `name`, in whatever case.
    pub fn find_account_by_name(&self, name: &str) -> (found: Option<&Account>)
        ensures
            match found {
                Some(account) => first_match(self@, named(name@)) == Some(*account),
                None => first_match(self@, named(name@)) is None,
            },
    {
        let mut index: usize = 0;
        while index < self.accounts.len()
            invariant
                index <= self.accounts.len(),
                forall|j: int| 0 <= j < index ==> !named(name@)(#[trigger] self@[j]),
            decreases self.accounts.len() - index,
        {
            if names_match(self.accounts[index].name.as_str(), name) {
                proof {
                    first_index_found(self@, named(name@), index as int);
                }
                return Some(&self.accounts[index]);
            }
            index += 1;
        }
        proof {
            first_index_is_least(self@, named(name@));
        }
        None
    }
    /// The first account with the identifier `id`, to be changed in place.
    pub fn get_account_mut(&mut self, id: &AccountId) -> (found: Option<&mut Account>)
        ensures
            match found {
                Some(account) => {
                    &&& first_index(old(self)@, with_id(*id)) matches Some(index)
                    &&& 0 <= index < old(self)@.len()
                    &&& *account == old(self)@[index]
                    &&& final(self)@ == old(self)@.update(index, *final(account))
                },
                None => {
                    &&& first_index(old(self)@, with_id(*id)) is None
                    &&& final(self)@ == old(self)@
                },
            },
    {
        match self.position_of(id) {
            Some(index) => Some(&mut self.accounts[index]),
            None => None,
        }
    }

    /// Removes the first account with the identifier `id`.
    pub fn delete_account(&mut self, id: &AccountId) -> (result: Result<(), String>)
        ensures
            match first_index(old(self)@, with_id(*id)) {
                Some(index) => {
                    &&& 0 <= index < old(self)@.len()
                    &&& result is Ok
                    &&& final(self)@ == old(self)@.remove(index)
                },
                None => {
                    &&& result matches Err(reason)
                    &&& reason@ == "Account not found"@
                    &&& final(self)@ == old(self)@
                },
            },
    {
        match self.position_of(id) {
            Some(index) => {
                self.accounts.remove(index);
                Ok(())
            },
            None => Err("Account not found".to_owned()),
        }
    }

    /// The account that a caller means by `identifier`: the one with that
    /// identifier where the text spells one, else the first of that name.
    pub fn resolve(&self, identifier: &str) -> (result: Result<AccountId, DomainError>)
        ensures
            verdict(result) == match parsed_uuid(identifier@) {
                Some(value) => Ok((AccountId { value })),
                None => match first_match(self@, named(identifier@)) {
                    Some(account) => Ok(account.id),
                    None => Err(DomainFailure::AccountNotFound(identifier@)),
                },
            },
    {
        match AccountId::parse(identifier) {
            Some(id) => Ok(id),
            None => match self.find_account_by_name(identifier) {
                Some(account) => Ok(account.id),
                None => Err(DomainError::AccountNotFound(identifier.to_owned())),
            },
        }
    }
    /// Whether the list is orderly, as the use cases need it.
    pub fn is_orderly(&self) -> (answer: bool)
        ensures
            answer == orderly(self@),
            answer ==> well_kept(filed(self@)),
    {
        proof {
            if orderly(self@) {
                orderly_list_is_well_kept(self@);
            }
        }
        let mut index: usize = 0;
        while index < self.accounts.len()
            invariant
                index <= self.accounts.len(),
                forall|i: int| 0 <= i < index ==> (#[trigger] self@[i]).inv(),
                forall|i: int|
                    0 <= i < index ==> first_index(self@, with_id((#[trigger] self@[i]).id))
                        == Some(i),
            decreases self.accounts.len() - index,
        {
            if !self.accounts[index].is_valid() {
                return false;
            }
            let first = self.position_of(&self.accounts[index].id);
            proof {
                first_index_is_least(self@, with_id(self@[index as int].id));
            }
            if first != Some(index) {
                return false;
            }
            index += 1;
        }
        proof {
            assert forall|i: int, j: int| 0 <= i < j < self@.len() implies (#[trigger] self@[i]).id
                != (#[trigger] self@[j]).id by {
                first_index_is_least(self@, with_id(self@[j].id));
            }
        }
        true
    }
}

impl LocalAccountRepository for Storage {
    type Error = StorageError;

    open spec fn records(&self) -> Map<AccountId, Account> {
        filed(self@)
    }

    open spec fn inv(&self) -> bool {
        orderly(self@)
    }

    /// The list never fails but to refuse an identifier it holds already.
    open spec fn infallible(&self) -> bool {
        true
    }

    fn create(&mut self, account: &Account) -> (result: Result<(), StorageError>)
        ensures
            result matches Err(error) ==> error == StorageError::DuplicateId(account.id),
            result is Ok ==> final(self)@ == old(self)@.push(*account),
            result is Err ==> final(self)@ == old(self)@,
    {
        match self.position_of(&account.id) {
            Some(_) => Err(StorageError::DuplicateId(account.id)),
            None => {
                proof {
                    filed_after_push(self@, *account);
                    first_index_is_least(self@, with_id(account.id));
                }
                self.accounts.push(account.clone());
                Ok(())
            },
        }
    }

    fn find_by_id(&self, id: AccountId) -> (result: Result<Option<Account>, StorageError>)
        ensures
            result == Ok::<Option<Account>, StorageError>(first_match(self@, with_id(id))),
    {
        match self.get_account(&id) {
            Some(account) => Ok(Some(account.clone())),
            None => Ok(None),
        }
    }

    fn find_by_name(&self, name: &str) -> (result: Result<Option<Account>, StorageError>)
        ensures
            result == Ok::<Option<Account>, StorageError>(first_match(self@, named(name@))),
    {
        proof {
            first_index_is_least(self@, named(name@));
            match first_index(self@, named(name@)) {
                Some(index) => {
                    orderly_list_files_each(self@, index);
                },
                None => {
                    assert forall|id: AccountId| #[trigger]
                        filed(self@).contains_key(id) implies !same_name(
                        filed(self@)[id].name@,
                        name@,
                    ) by {
                        first_index_is_least(self@, with_id(id));
                    }
                },
            }
        }
        match self.find_account_by_name(name) {
            Some(account) => Ok(Some(account.clone())),
            None => Ok(None),
        }
    }

    fn find_all(&self) -> (result: Result<Vec<Account>, StorageError>)
        ensures
            result matches Ok(listing) && listing@ == self@,
    {
        let mut listing: Vec<Account> = Vec::new();
        let mut index: usize = 0;
        while index < self.accounts.len()
            invariant
                index <= self.accounts.len(),
                listing@ == self@.take(index as int),
            decreases self.accounts.len() - index,
        {
            listing.push(self.accounts[index].clone());
            proof {
                assert(self@.take(index + 1) =~= self@.take(index as int).push(
                    self@[index as int],
                ));
            }
            index += 1;
        }
        proof {
            assert(self@.take(index as int) =~= self@);
            assert forall|i: int| 0 <= i < self@.len() implies record_of(
                filed(self@),
                (#[trigger] self@[i]).id,
            ) == Some(self@[i]) by {
                orderly_list_files_each(self@, i);
            }
            assert forall|id: AccountId| #[trigger] filed(self@).contains_key(id) implies exists|
                i: int,
            |
                0 <= i < self@.len() && (#[trigger] self@[i]).id == id by {
                first_index_is_least(self@, with_id(id));
                let index = first_index(self@, with_id(id))->0;
                assert(self@[index].id == id);
            }
        }
        Ok(listing)
    }

    fn update(&mut self, account: &Account) -> (result: Result<(), StorageError>)
        ensures
            result is Ok,
            final(self)@ == (match first_index(old(self)@, with_id(account.id)) {
                Some(index) => old(self)@.update(index, *account),
                None => old(self)@,
            }),
    {
        match self.position_of(&account.id) {
            Some(index) => {
                proof {
                    filed_after_update(self@, index as int, *account);
                    first_index_is_least(self@, with_id(account.id));
                }
                self.accounts.set(index, account.clone());
            },
            None => {},
        }
        Ok(())
    }

    fn delete(&mut self, id: AccountId) -> (result: Result<(), StorageError>)
        ensures
            result is Ok,
            final(self)@ == (match first_index(old(self)@, with_id(id)) {
                Some(index) => old(self)@.remove(index),
                None => old(self)@,
            }),
    {
        proof {
            match first_index(self@, with_id(id)) {
                Some(index) => {
                    filed_after_remove(self@, index, id);
                },
                None => {
                    assert(filed(self@).remove(id) =~= filed(self@));
                },
            }
        }
        let _ = self.delete_account(&id);
        Ok(())
    }
}

} // verus!
