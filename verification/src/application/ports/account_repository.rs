//! The store of accounts, as the use cases see it.
//!
//! The use cases need someone who keeps accounts; how they are kept (a
//! database, a file, a list in memory) is the keeper's business.

use crate::domain::entities::Account;
use crate::domain::identity::AccountId;
use crate::domain::names::same_name;
use vstd::prelude::*;

verus! {

/// The record kept under `id`, if there is one.
pub open spec fn record_of(records: Map<AccountId, Account>, id: AccountId) -> Option<Account> {
    if records.contains_key(id) {
        Some(records[id])
    } else {
        None
    }
}

/// Whether some record bears `name`, in whatever case.
pub open spec fn name_taken(records: Map<AccountId, Account>, name: Seq<char>) -> bool {
    exists|id: AccountId| #[trigger]
        records.contains_key(id) && same_name(records[id].name@, name)
}

/// Records are well kept when there are finitely many, each is filed under
/// its own identifier, and each is an account in good standing.
pub open spec fn well_kept(records: Map<AccountId, Account>) -> bool {
    &&& records.dom().finite()
    &&& forall|id: AccountId| #[trigger]
        records.contains_key(id) ==> records[id].id == id && records[id].inv()
}

/// A listing shows the records when it holds each of them exactly once and
/// nothing else.
pub open spec fn shows(listing: Seq<Account>, records: Map<AccountId, Account>) -> bool {
    &&& forall|i: int|
        0 <= i < listing.len() ==> record_of(records, (#[trigger] listing[i]).id) == Some(
            listing[i],
        )
    &&& forall|i: int, j: int|
        0 <= i < j < listing.len() ==> (#[trigger] listing[i]).id != (#[trigger] listing[j]).id
    &&& forall|id: AccountId| #[trigger]
        records.contains_key(id) ==> exists|i: int|
            0 <= i < listing.len() && (#[trigger] listing[i]).id == id
}

/// A store of accounts that one caller uses at a time.
///
/// The contract speaks of the records as they stand between two calls of
/// this caller. A store that others write to as well meets it only while
/// they keep still: between a lookup and the write that follows it, nothing
/// here stops another writer.
///
/// A store may fail for reasons of its own (a lost connection, a full disk).
/// `infallible` says of a store that it never does; the use cases promise an
/// answer only of such a store. After a failed write nothing is known of the
/// records but that they are well kept.
///
/// A store says what it holds through `records`, and what it needs of itself
/// through `inv`. One that says neither keeps the defaults below: it is never
/// known to be fit, and the contract is then silent about it.
pub trait LocalAccountRepository {
    /// The store's own failure. The use cases hand it on unread.
    type Error;

    /// The records held, by identifier.
    open spec fn records(&self) -> Map<AccountId, Account> {
        Map::empty()
    }

    /// What the store needs to hold of itself between calls.
    open spec fn inv(&self) -> bool {
        false
    }

    /// Whether the store fails for no reason but a duplicate identifier.
    open spec fn infallible(&self) -> bool {
        false
    }

    /// Files a new record. An identifier that is already on file is refused.
    fn create(&mut self, account: &Account) -> (result: Result<(), Self::Error>)
        requires
            old(self).inv(),
            well_kept(old(self).records()),
            account.inv(),
        ensures
            final(self).inv(),
            well_kept(final(self).records()),
            final(self).infallible() == old(self).infallible(),
            result is Ok ==> !old(self).records().contains_key(account.id),
            result is Ok ==> final(self).records() == old(self).records().insert(
                account.id,
                *account,
            ),
            old(self).infallible() && !old(self).records().contains_key(account.id)
                ==> result is Ok,
            old(self).infallible() && result is Err ==> final(self).records() == old(
                self,
            ).records(),
    ;

    /// Looks a record up by its identifier.
    fn find_by_id(&self, id: AccountId) -> (result: Result<Option<Account>, Self::Error>)
        requires
            self.inv(),
            well_kept(self.records()),
        ensures
            result matches Ok(found) ==> found == record_of(self.records(), id),
            self.infallible() ==> result is Ok,
    ;

    /// Looks a record up by its name, in whatever case.
    fn find_by_name(&self, name: &str) -> (result: Result<Option<Account>, Self::Error>)
        requires
            self.inv(),
            well_kept(self.records()),
        ensures
            result matches Ok(Some(account)) ==> record_of(self.records(), account.id) == Some(
                account,
            ) && same_name(account.name@, name@),
            result matches Ok(None) ==> !name_taken(self.records(), name@),
            self.infallible() ==> result is Ok,
    ;

    /// Lists every record once, in no promised order.
    fn find_all(&self) -> (result: Result<Vec<Account>, Self::Error>)
        requires
            self.inv(),
            well_kept(self.records()),
        ensures
            result matches Ok(listing) ==> shows(listing@, self.records()),
            self.infallible() ==> result is Ok,
    ;

    /// Overwrites the record filed under the account's identifier. Where
    /// none is filed there, nothing is written.
    fn update(&mut self, account: &Account) -> (result: Result<(), Self::Error>)
        requires
            old(self).inv(),
            well_kept(old(self).records()),
            account.inv(),
        ensures
            final(self).inv(),
            well_kept(final(self).records()),
            final(self).infallible() == old(self).infallible(),
            result is Ok ==> final(self).records() == (if old(self).records().contains_key(
                account.id,
            ) {
                old(self).records().insert(account.id, *account)
            } else {
                old(self).records()
            }),
            old(self).infallible() ==> result is Ok,
    ;

    /// Removes the record filed under `id`, if there is one.
    fn delete(&mut self, id: AccountId) -> (result: Result<(), Self::Error>)
        requires
            old(self).inv(),
            well_kept(old(self).records()),
        ensures
            final(self).inv(),
            well_kept(final(self).records()),
            final(self).infallible() == old(self).infallible(),
            result is Ok ==> final(self).records() == old(self).records().remove(id),
            old(self).infallible() ==> result is Ok,
    ;
}

} // verus!
