//! The account entity and its arithmetic.

use crate::domain::clock::Timestamp;
use crate::domain::errors::{DomainError, DomainFailure};
use crate::domain::identity::AccountId;
use vstd::prelude::*;

verus! {

/// An account: who it is, what it is called, and how much it holds.
///
/// The balance counts minor units of the currency (cents), so that sums are
/// exact.
#[derive(Debug, PartialEq, Eq)]
pub struct Account {
    pub id: AccountId,
    pub name: String,
    pub balance: i64,
    pub currency: String,
    pub created_at: Timestamp,
    pub updated_at: Timestamp,
}

/// What a business rule answers, with its failure as a mathematical value.
pub open spec fn verdict<T>(result: Result<T, DomainError>) -> Result<T, DomainFailure> {
    match result {
        Ok(value) => Ok(value),
        Err(error) => Err(error@),
    }
}

/// The reason given when an amount is zero or negative.
pub open spec fn amount_not_positive() -> Seq<char> {
    "Amount must be positive"@
}

impl Clone for Account {
    fn clone(&self) -> (copy: Account)
        ensures
            copy == *self,
    {
        Account {
            id: self.id,
            name: self.name.clone(),
            balance: self.balance,
            currency: self.currency.clone(),
            created_at: self.created_at,
            updated_at: self.updated_at,
        }
    }
}

impl Account {
    /// What holds of every account that the operations below have made: it
    /// owes nothing, and was not changed before it was created.
    pub open spec fn inv(&self) -> bool {
        &&& self.balance >= 0
        &&& self.created_at.not_after(self.updated_at)
    }

    /// The account that is opened under `id` at the instant `now`.
    pub open spec fn opened(
        id: AccountId,
        name: String,
        currency: String,
        now: Timestamp,
    ) -> Account {
        Account { id, name, balance: 0, currency, created_at: now, updated_at: now }
    }

    /// Whether a deposit of `amount` is accepted.
    pub open spec fn deposit_outcome(self, amount: int) -> Result<(), DomainFailure> {
        if amount <= 0 {
            Err(DomainFailure::InvalidAmount(amount_not_positive()))
        } else {
            Ok(())
        }
    }

    /// The account after a deposit of `amount` was asked for at `now`.
    pub open spec fn after_deposit(self, amount: int, now: Timestamp) -> Account {
        if self.deposit_outcome(amount) is Ok {
            Account {
                balance: (self.balance + amount) as i64,
                updated_at: self.updated_at.latest(now),
                ..self
            }
        } else {
            self
        }
    }

    /// Whether a withdrawal of `amount` is accepted.
    pub open spec fn withdraw_outcome(self, amount: int) -> Result<(), DomainFailure> {
        if amount <= 0 {
            Err(DomainFailure::InvalidAmount(amount_not_positive()))
        } else if self.balance < amount {
            Err(
                DomainFailure::InsufficientFunds {
                    available: self.balance as int,
                    requested: amount,
                },
            )
        } else {
            Ok(())
        }
    }

    /// The account after a withdrawal of `amount` was asked for at `now`.
    pub open spec fn after_withdraw(self, amount: int, now: Timestamp) -> Account {
        if self.withdraw_outcome(amount) is Ok {
            Account {
                balance: (self.balance - amount) as i64,
                updated_at: self.updated_at.latest(now),
                ..self
            }
        } else {
            self
        }
    }

    /// Whether the account is in good standing.
    pub fn is_valid(&self) -> (valid: bool)
        ensures
            valid == self.inv(),
    {
        self.balance >= 0 && self.created_at.is_not_after(&self.updated_at)
    }

    /// Opens an account with a fresh identifier, an empty balance and both
    /// dates set to the present.
    pub fn new(name: String, currency: String) -> (account: Account)
        ensures
            account.name == name,
            account.currency == currency,
            account.balance == 0,
            account.updated_at == account.created_at,
            account.inv(),
    {
        let id = AccountId::random();
        let now = Timestamp::now();
        Account::open(id, name, currency, now)
    }

    /// Opens an account under a given identifier at a given instant.
    pub fn open(id: AccountId, name: String, currency: String, now: Timestamp) -> (account:
        Account)
        ensures
            account == Account::opened(id, name, currency, now),
            account.inv(),
    {
        Account { id, name, balance: 0, currency, created_at: now, updated_at: now }
    }

    /// Adds `amount` to the balance and dates the change with the present.
    ///
    /// A deposit that is refused changes nothing.
    pub fn deposit(&mut self, amount: i64) -> (result: Result<(), DomainError>)
        requires
            old(self).balance + amount <= i64::MAX,
        ensures
            verdict(result) == old(self).deposit_outcome(amount as int),
            result is Err ==> *final(self) == *old(self),
            result is Ok ==> {
                &&& final(self).balance == old(self).balance + amount
                &&& final(self).id == old(self).id
                &&& final(self).name == old(self).name
                &&& final(self).currency == old(self).currency
                &&& final(self).created_at == old(self).created_at
                &&& old(self).updated_at.not_after(final(self).updated_at)
            },
            old(self).inv() ==> final(self).inv(),
    {
        let now = Timestamp::now();
        self.deposit_at(amount, now)
    }

    /// Adds `amount` to the balance and dates the change `now`, unless the
    /// account was last changed later than that: its date of change never
    /// goes back.
    pub fn deposit_at(&mut self, amount: i64, now: Timestamp) -> (result: Result<
        (),
        DomainError,
    >)
        requires
            old(self).balance + amount <= i64::MAX,
        ensures
            verdict(result) == old(self).deposit_outcome(amount as int),
            *final(self) == old(self).after_deposit(amount as int, now),
            old(self).inv() ==> final(self).inv(),
    {
        if amount <= 0 {
            return Err(DomainError::InvalidAmount("Amount must be positive".to_owned()));
        }
        self.balance = self.balance + amount;
        self.updated_at = self.updated_at.later_of(now);
        Ok(())
    }

    /// Takes `amount` from the balance and dates the change with the present.
    ///
    /// A withdrawal that is refused changes nothing.
    pub fn withdraw(&mut self, amount: i64) -> (result: Result<(), DomainError>)
        ensures
            verdict(result) == old(self).withdraw_outcome(amount as int),
            result is Err ==> *final(self) == *old(self),
            result is Ok ==> {
                &&& final(self).balance == old(self).balance - amount
                &&& final(self).id == old(self).id
                &&& final(self).name == old(self).name
                &&& final(self).currency == old(self).currency
                &&& final(self).created_at == old(self).created_at
                &&& old(self).updated_at.not_after(final(self).updated_at)
            },
            old(self).inv() ==> final(self).inv(),
    {
        let now = Timestamp::now();
        self.withdraw_at(amount, now)
    }

    /// Takes `amount` from the balance and dates the change `now`, unless the
    /// account was last changed later than that.
    pub fn withdraw_at(&mut self, amount: i64, now: Timestamp) -> (result: Result<
        (),
        DomainError,
    >)
        ensures
            verdict(result) == old(self).withdraw_outcome(amount as int),
            *final(self) == old(self).after_withdraw(amount as int, now),
            old(self).inv() ==> final(self).inv(),
    {
        if amount <= 0 {
            return Err(DomainError::InvalidAmount("Amount must be positive".to_owned()));
        }
        if self.balance < amount {
            return Err(
                DomainError::InsufficientFunds { available: self.balance, requested: amount },
            );
        }
        self.balance = self.balance - amount;
        self.updated_at = self.updated_at.later_of(now);
        Ok(())
    }
}

/// A deposit that a withdrawal of the same amount follows at once leaves the
/// balance, the identifier, the name, the currency and the date of creation
/// as they were; and where the amount is positive, both are accepted.
pub proof fn withdrawal_undoes_deposit(
    account: Account,
    amount: int,
    first: Timestamp,
    second: Timestamp,
)
    requires
        account.inv(),
        account.balance + amount <= i64::MAX,
    ensures
        ({
            let credited = account.after_deposit(amount, first);
            let restored = credited.after_withdraw(amount, second);
            &&& amount > 0 ==> account.deposit_outcome(amount) is Ok
            &&& amount > 0 ==> credited.withdraw_outcome(amount) is Ok
            &&& restored.balance == account.balance
            &&& restored.id == account.id
            &&& restored.name == account.name
            &&& restored.currency == account.currency
            &&& restored.created_at == account.created_at
        }),
{
}

/// Where the clock has moved on before the deposit and again before the
/// withdrawal, and the amount is positive, the date of change moves on at
/// each of the two steps.
pub proof fn movements_advance_the_date(
    account: Account,
    amount: int,
    first: Timestamp,
    second: Timestamp,
)
    requires
        account.inv(),
        amount > 0,
        account.balance + amount <= i64::MAX,
        account.updated_at.before(first),
        first.before(second),
    ensures
        ({
            let credited = account.after_deposit(amount, first);
            let restored = credited.after_withdraw(amount, second);
            &&& account.updated_at.before(credited.updated_at)
            &&& credited.updated_at.before(restored.updated_at)
        }),
{
}

/// A request to move money, with the instant at which it is made.
pub ghost enum Movement {
    Deposit { amount: int, at: Timestamp },
    Withdrawal { amount: int, at: Timestamp },
}

impl Account {
    /// The account after one movement was asked for.
    pub open spec fn after_movement(self, movement: Movement) -> Account {
        match movement {
            Movement::Deposit { amount, at } => self.after_deposit(amount, at),
            Movement::Withdrawal { amount, at } => self.after_withdraw(amount, at),
        }
    }

    /// The account after the movements were asked for, one after the other.
    pub open spec fn after_all(self, movements: Seq<Movement>) -> Account
        decreases movements.len(),
    {
        if movements.len() == 0 {
            self
        } else {
            self.after_all(movements.drop_last()).after_movement(movements.last())
        }
    }

    /// Whether the balance stays within what the machine can count, which is
    /// what a deposit asks of its caller.
    pub open spec fn has_room_for(self, movements: Seq<Movement>) -> bool
        decreases movements.len(),
    {
        movements.len() > 0 ==> {
            &&& self.has_room_for(movements.drop_last())
            &&& movements.last() matches Movement::Deposit { amount, .. } ==> self.after_all(
                movements.drop_last(),
            ).balance + amount <= i64::MAX
        }
    }
}

/// Whatever is asked of an account in good standing, in whatever order, and
/// whether it is accepted or refused: the account stays in good standing. Its
/// balance is never negative.
pub proof fn balance_is_never_negative(account: Account, movements: Seq<Movement>)
    requires
        account.inv(),
        account.has_room_for(movements),
    ensures
        account.after_all(movements).inv(),
        account.after_all(movements).balance >= 0,
    decreases movements.len(),
{
    if movements.len() > 0 {
        balance_is_never_negative(account, movements.drop_last());
    }
}

} // verus!
