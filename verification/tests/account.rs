use finance_tracker::domain::clock::Timestamp;
use finance_tracker::domain::entities::Account;
use finance_tracker::domain::errors::DomainError;
use finance_tracker::domain::identity::AccountId;

fn at(seconds: i64) -> Timestamp {
    Timestamp { seconds, nanos: 0 }
}

fn savings() -> Account {
    Account::open(AccountId { value: 7 }, "Savings".to_string(), "USD".to_string(), at(100))
}

#[test]
fn new_account_is_empty_and_dated_once() {
    let account = Account::new("Wallet".to_string(), "USD".to_string());
    assert_eq!(account.name, "Wallet");
    assert_eq!(account.currency, "USD");
    assert_eq!(account.balance, 0);
    assert_eq!(account.created_at, account.updated_at);
    assert!(account.is_valid());
}

#[test]
fn new_account_is_dated_with_the_present() {
    let account = Account::new("Wallet".to_string(), "USD".to_string());
    // Later than the first of January 2020, and with a fraction of a second
    // that is less than a second.
    assert!(account.created_at.seconds > 1_577_836_800);
    assert!(account.created_at.nanos < 1_000_000_000);
}

#[test]
fn new_accounts_get_identifiers_of_their_own() {
    let first = Account::new("Wallet".to_string(), "USD".to_string());
    let second = Account::new("Wallet".to_string(), "USD".to_string());
    assert_ne!(first.id, second.id);
    assert_ne!(first.id.value, 0);
}

#[test]
fn open_sets_every_field() {
    let account = savings();
    assert_eq!(account.id, AccountId { value: 7 });
    assert_eq!(account.name, "Savings");
    assert_eq!(account.currency, "USD");
    assert_eq!(account.balance, 0);
    assert_eq!(account.created_at, at(100));
    assert_eq!(account.updated_at, at(100));
}

#[test]
fn savings_scenario() {
    let mut account = savings();
    assert_eq!(account.balance, 0);
    assert_eq!(account.deposit_at(10050, at(101)), Ok(()));
    assert_eq!(account.balance, 10050);
    assert_eq!(account.withdraw_at(5000, at(102)), Ok(()));
    assert_eq!(account.balance, 5050);
    assert_eq!(
        account.withdraw_at(6000, at(103)),
        Err(DomainError::InsufficientFunds { available: 5050, requested: 6000 })
    );
    assert_eq!(account.balance, 5050);
    assert_eq!(account.updated_at, at(102));
}

#[test]
fn deposit_then_withdraw_restores_the_balance() {
    let mut account = savings();
    account.deposit_at(300, at(101)).unwrap();
    let before = account.clone();
    account.deposit_at(1234, at(102)).unwrap();
    assert_eq!(account.balance, 1534);
    assert!(before.updated_at.is_before(&account.updated_at));
    let between = account.updated_at;
    account.withdraw_at(1234, at(103)).unwrap();
    assert!(between.is_before(&account.updated_at));
    assert_eq!(account.balance, before.balance);
    assert_eq!(account.id, before.id);
    assert_eq!(account.name, before.name);
    assert_eq!(account.currency, before.currency);
    assert_eq!(account.created_at, before.created_at);
}

#[test]
fn deposit_of_nothing_is_refused() {
    let mut account = savings();
    account.deposit_at(500, at(101)).unwrap();
    let before = account.clone();
    for amount in [0, -1, -10050, i64::MIN] {
        assert_eq!(
            account.deposit_at(amount, at(200)),
            Err(DomainError::InvalidAmount("Amount must be positive".to_string()))
        );
        assert_eq!(account, before);
        assert_eq!(
            account.deposit(amount),
            Err(DomainError::InvalidAmount("Amount must be positive".to_string()))
        );
        assert_eq!(account, before);
    }
}

#[test]
fn withdrawal_of_nothing_is_refused() {
    let mut account = savings();
    account.deposit_at(500, at(101)).unwrap();
    let before = account.clone();
    for amount in [0, -1, i64::MIN] {
        assert_eq!(
            account.withdraw_at(amount, at(200)),
            Err(DomainError::InvalidAmount("Amount must be positive".to_string()))
        );
        assert_eq!(account, before);
    }
}

#[test]
fn withdrawal_beyond_the_balance_is_refused() {
    let mut account = savings();
    account.deposit_at(500, at(101)).unwrap();
    let before = account.clone();
    assert_eq!(
        account.withdraw_at(501, at(200)),
        Err(DomainError::InsufficientFunds { available: 500, requested: 501 })
    );
    assert_eq!(account, before);
    assert_eq!(
        account.withdraw(i64::MAX),
        Err(DomainError::InsufficientFunds { available: 500, requested: i64::MAX })
    );
    assert_eq!(account, before);
}

#[test]
fn withdrawal_of_the_whole_balance_leaves_nothing() {
    let mut account = savings();
    account.deposit_at(500, at(101)).unwrap();
    assert_eq!(account.withdraw_at(500, at(102)), Ok(()));
    assert_eq!(account.balance, 0);
    assert!(account.is_valid());
}

#[test]
fn deposit_up_to_the_largest_balance() {
    let mut account = savings();
    assert_eq!(account.deposit_at(i64::MAX, at(101)), Ok(()));
    assert_eq!(account.balance, i64::MAX);
}

#[test]
fn date_of_change_never_goes_back() {
    let mut account = savings();
    account.deposit_at(10, at(500)).unwrap();
    assert_eq!(account.updated_at, at(500));
    account.deposit_at(10, at(400)).unwrap();
    assert_eq!(account.balance, 20);
    assert_eq!(account.updated_at, at(500));
    account.withdraw_at(5, at(50)).unwrap();
    assert_eq!(account.balance, 15);
    assert_eq!(account.updated_at, at(500));
    assert!(account.is_valid());
}

#[test]
fn deposit_and_withdraw_read_the_clock() {
    let mut account = Account::new("Wallet".to_string(), "EUR".to_string());
    let created = account.created_at;
    assert_eq!(account.deposit(700), Ok(()));
    assert_eq!(account.balance, 700);
    assert!(created.is_not_after(&account.updated_at));
    let after_deposit = account.updated_at;
    assert_eq!(account.withdraw(200), Ok(()));
    assert_eq!(account.balance, 500);
    assert!(after_deposit.is_not_after(&account.updated_at));
    assert_eq!(account.created_at, created);
    assert_eq!(account.name, "Wallet");
    assert_eq!(account.currency, "EUR");
}

#[test]
fn validity_is_told_from_balance_and_dates() {
    let mut account = savings();
    assert!(account.is_valid());
    account.balance = -1;
    assert!(!account.is_valid());
    account.balance = 0;
    account.updated_at = at(99);
    assert!(!account.is_valid());
    account.updated_at = Timestamp { seconds: 100, nanos: 1 };
    assert!(account.is_valid());
}

#[test]
fn timestamps_are_ordered_by_seconds_then_nanos() {
    let early = Timestamp { seconds: 5, nanos: 999_999_999 };
    let late = Timestamp { seconds: 6, nanos: 0 };
    let later = Timestamp { seconds: 6, nanos: 1 };
    assert!(early.is_before(&late));
    assert!(late.is_before(&later));
    assert!(!later.is_before(&late));
    assert!(!late.is_before(&late));
    assert!(late.is_not_after(&late));
    assert!(early.is_not_after(&later));
    assert!(!later.is_not_after(&early));
    assert_eq!(early.later_of(late), late);
    assert_eq!(later.later_of(late), later);
    assert_eq!(late.later_of(late), late);
    let before_epoch = Timestamp { seconds: -1, nanos: 500 };
    assert!(before_epoch.is_before(&Timestamp { seconds: 0, nanos: 0 }));
}
