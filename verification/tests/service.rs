use finance_tracker::application::dto::CreateAccountRequest;
use finance_tracker::application::ports::LocalAccountRepository;
use finance_tracker::application::services::account_service::{found_or_missing, free_or_taken};
use finance_tracker::application::services::{AccountService, AccountServiceError};
use finance_tracker::domain::clock::Timestamp;
use finance_tracker::domain::entities::Account;
use finance_tracker::domain::errors::DomainError;
use finance_tracker::domain::identity::AccountId;
use finance_tracker::storage::{Storage, StorageError};

fn at(seconds: i64) -> Timestamp {
    Timestamp { seconds, nanos: 0 }
}

fn id(value: u128) -> AccountId {
    AccountId { value }
}

fn request(name: &str, currency: &str) -> CreateAccountRequest {
    CreateAccountRequest { name: name.to_string(), currency: currency.to_string() }
}

fn domain<T: std::fmt::Debug, E: std::fmt::Debug>(
    result: Result<T, AccountServiceError<E>>,
) -> DomainError {
    match result {
        Err(AccountServiceError::Domain(error)) => error,
        other => panic!("a business rule should have said no, but: {:?}", other),
    }
}

fn service_with_savings() -> AccountService<Storage> {
    let mut service = AccountService::new(Storage::new());
    service.create_account_as(request("Savings", "USD"), id(1), at(10)).unwrap();
    service
}

/// A store that has lost its connection: every call fails.
struct Unplugged;

#[derive(Debug, PartialEq)]
struct Lost;

impl LocalAccountRepository for Unplugged {
    type Error = Lost;

    fn create(&mut self, _account: &Account) -> Result<(), Lost> {
        Err(Lost)
    }

    fn find_by_id(&self, _id: AccountId) -> Result<Option<Account>, Lost> {
        Err(Lost)
    }

    fn find_by_name(&self, _name: &str) -> Result<Option<Account>, Lost> {
        Err(Lost)
    }

    fn find_all(&self) -> Result<Vec<Account>, Lost> {
        Err(Lost)
    }

    fn update(&mut self, _account: &Account) -> Result<(), Lost> {
        Err(Lost)
    }

    fn delete(&mut self, _id: AccountId) -> Result<(), Lost> {
        Err(Lost)
    }
}

#[test]
fn savings_scenario_through_the_service() {
    let mut service = AccountService::new(Storage::new());
    let opened = service.create_account_as(request("Savings", "USD"), id(1), at(10)).unwrap();
    assert_eq!(opened.balance, 0);
    assert_eq!(opened.name, "Savings");
    assert_eq!(opened.currency, "USD");
    assert_eq!(opened.id, id(1));
    assert_eq!(opened.created_at, at(10));
    assert_eq!(opened.updated_at, at(10));

    let credited = service.deposit_at(id(1), 10050, at(11)).unwrap();
    assert_eq!(credited.balance, 10050);
    assert_eq!(credited.updated_at, at(11));
    assert_eq!(service.get_account(id(1)).unwrap(), credited);

    let debited = service.withdraw_at(id(1), 5000, at(12)).unwrap();
    assert_eq!(debited.balance, 5050);

    assert_eq!(
        domain(service.withdraw_at(id(1), 6000, at(13))),
        DomainError::InsufficientFunds { available: 5050, requested: 6000 }
    );
    let kept = service.get_account(id(1)).unwrap();
    assert_eq!(kept.balance, 5050);
    assert_eq!(kept.updated_at, at(12));
}

#[test]
fn savings_scenario_with_the_clock() {
    let mut service = AccountService::new(Storage::new());
    let opened = service.create_account(request("Savings", "USD")).unwrap();
    assert_eq!(opened.balance, 0);
    assert_eq!(opened.created_at, opened.updated_at);
    let account = opened.id;
    assert_eq!(service.deposit(account, 10050).unwrap().balance, 10050);
    assert_eq!(service.withdraw(account, 5000).unwrap().balance, 5050);
    assert_eq!(
        domain(service.withdraw(account, 6000)),
        DomainError::InsufficientFunds { available: 5050, requested: 6000 }
    );
    let kept = service.get_account(account).unwrap();
    assert_eq!(kept.balance, 5050);
    assert!(kept.created_at.is_not_after(&kept.updated_at));
    assert_eq!(kept.created_at, opened.created_at);
}

#[test]
fn second_account_of_a_name_is_refused() {
    let mut service = AccountService::new(Storage::new());
    service.create_account(request("Wallet", "USD")).unwrap();
    assert_eq!(
        domain(service.create_account(request("WALLET", "EUR"))),
        DomainError::AccountAlreadyExists("WALLET".to_string())
    );
    assert_eq!(
        domain(service.create_account_as(request("wallet", "USD"), id(77), at(1))),
        DomainError::AccountAlreadyExists("wallet".to_string())
    );
    assert_eq!(
        domain(service.create_account(request("Wallet", "USD"))),
        DomainError::AccountAlreadyExists("Wallet".to_string())
    );
    assert_eq!(service.get_all_accounts().unwrap().len(), 1);
    service.create_account(request("Wallet 2", "USD")).unwrap();
    assert_eq!(service.get_all_accounts().unwrap().len(), 2);
}

#[test]
fn identifier_on_file_is_refused_by_the_store() {
    let mut service = service_with_savings();
    match service.create_account_as(request("Other", "USD"), id(1), at(20)) {
        Err(AccountServiceError::Repository(error)) => {
            assert_eq!(error, StorageError::DuplicateId(id(1)))
        }
        other => panic!("the store should have refused, but: {:?}", other),
    }
    assert_eq!(service.get_all_accounts().unwrap().len(), 1);
    assert_eq!(service.get_account(id(1)).unwrap().name, "Savings");
}

#[test]
fn unknown_identifier_is_not_found() {
    let mut service = service_with_savings();
    let missing = id(0x550e8400e29b41d4a716446655440000);
    let text = "550e8400-e29b-41d4-a716-446655440000".to_string();
    assert_eq!(domain(service.get_account(missing)), DomainError::AccountNotFound(text.clone()));
    assert_eq!(
        domain(service.deposit_at(missing, 5, at(11))),
        DomainError::AccountNotFound(text.clone())
    );
    assert_eq!(domain(service.deposit(missing, 5)), DomainError::AccountNotFound(text.clone()));
    assert_eq!(
        domain(service.withdraw_at(missing, 5, at(11))),
        DomainError::AccountNotFound(text.clone())
    );
    assert_eq!(domain(service.withdraw(missing, 5)), DomainError::AccountNotFound(text.clone()));
    assert_eq!(domain(service.delete_account(missing)), DomainError::AccountNotFound(text));
    assert_eq!(service.get_all_accounts().unwrap().len(), 1);
}

#[test]
fn not_found_names_the_identifier_in_lower_case_with_hyphens() {
    let service = service_with_savings();
    assert_eq!(
        domain(service.get_account(id(0xA1A2A3A4B1B2C1C2D1D2D3D4D5D6D7D8))),
        DomainError::AccountNotFound("a1a2a3a4-b1b2-c1c2-d1d2-d3d4d5d6d7d8".to_string())
    );
    assert_eq!(
        domain(service.get_account(id(2))),
        DomainError::AccountNotFound("00000000-0000-0000-0000-000000000002".to_string())
    );
}

#[test]
fn deleted_account_is_gone() {
    let mut service = service_with_savings();
    service.create_account_as(request("Wallet", "USD"), id(2), at(10)).unwrap();
    assert!(service.delete_account(id(1)).is_ok());
    assert_eq!(
        domain(service.get_account(id(1))),
        DomainError::AccountNotFound("00000000-0000-0000-0000-000000000001".to_string())
    );
    assert_eq!(
        domain(service.delete_account(id(1))),
        DomainError::AccountNotFound("00000000-0000-0000-0000-000000000001".to_string())
    );
    let left = service.get_all_accounts().unwrap();
    assert_eq!(left.len(), 1);
    assert_eq!(left[0].id, id(2));
    // The name is free again.
    assert!(service.create_account_as(request("savings", "USD"), id(3), at(11)).is_ok());
}

#[test]
fn refused_amounts_leave_the_store_as_it_was() {
    let mut service = service_with_savings();
    service.deposit_at(id(1), 100, at(11)).unwrap();
    let before = service.get_account(id(1)).unwrap();
    for amount in [0, -1, i64::MIN] {
        assert_eq!(
            domain(service.deposit_at(id(1), amount, at(50))),
            DomainError::InvalidAmount("Amount must be positive".to_string())
        );
        assert_eq!(
            domain(service.withdraw_at(id(1), amount, at(50))),
            DomainError::InvalidAmount("Amount must be positive".to_string())
        );
        assert_eq!(
            domain(service.deposit(id(1), amount)),
            DomainError::InvalidAmount("Amount must be positive".to_string())
        );
        assert_eq!(service.get_account(id(1)).unwrap(), before);
    }
    assert_eq!(
        domain(service.withdraw_at(id(1), 101, at(50))),
        DomainError::InsufficientFunds { available: 100, requested: 101 }
    );
    assert_eq!(service.get_account(id(1)).unwrap(), before);
}

#[test]
fn deposit_then_withdraw_through_the_service_restores() {
    let mut service = service_with_savings();
    service.deposit_at(id(1), 40, at(11)).unwrap();
    let before = service.get_account(id(1)).unwrap();
    let credited = service.deposit_at(id(1), 999, at(12)).unwrap();
    assert!(before.updated_at.is_before(&credited.updated_at));
    let restored = service.withdraw_at(id(1), 999, at(13)).unwrap();
    assert!(credited.updated_at.is_before(&restored.updated_at));
    assert_eq!(restored.balance, before.balance);
    assert_eq!(restored.id, before.id);
    assert_eq!(restored.name, before.name);
    assert_eq!(restored.currency, before.currency);
    assert_eq!(service.get_account(id(1)).unwrap(), restored);
}

#[test]
fn listing_shows_every_account_once() {
    let mut service = AccountService::new(Storage::new());
    assert_eq!(service.get_all_accounts().unwrap(), Vec::new());
    service.create_account_as(request("A", "USD"), id(3), at(1)).unwrap();
    service.create_account_as(request("B", "EUR"), id(1), at(2)).unwrap();
    service.create_account_as(request("C", "RUB"), id(2), at(3)).unwrap();
    service.deposit_at(id(1), 5, at(4)).unwrap();
    let listing = service.get_all_accounts().unwrap();
    let mut ids: Vec<u128> = listing.iter().map(|account| account.id.value).collect();
    ids.sort();
    assert_eq!(ids, vec![1, 2, 3]);
    for account in &listing {
        assert_eq!(service.get_account(account.id).unwrap(), *account);
        assert!(account.is_valid());
    }
}

#[test]
fn the_store_can_be_read_and_taken_back() {
    let mut service = service_with_savings();
    service.deposit_at(id(1), 12, at(11)).unwrap();
    assert_eq!(service.repository().get_all_accounts().len(), 1);
    assert!(service.repository().is_orderly());
    let storage = service.into_repository();
    assert_eq!(storage.get_account(&id(1)).unwrap().balance, 12);
}

#[test]
fn a_failing_store_is_reported_as_such() {
    let mut service = AccountService::new(Unplugged);
    assert!(matches!(service.get_account(id(1)), Err(AccountServiceError::Repository(Lost))));
    assert!(matches!(service.get_all_accounts(), Err(AccountServiceError::Repository(Lost))));
    assert!(matches!(
        service.create_account(request("Wallet", "USD")),
        Err(AccountServiceError::Repository(Lost))
    ));
    assert!(matches!(service.deposit(id(1), 5), Err(AccountServiceError::Repository(Lost))));
    assert!(matches!(service.withdraw(id(1), 5), Err(AccountServiceError::Repository(Lost))));
    assert!(matches!(service.delete_account(id(1)), Err(AccountServiceError::Repository(Lost))));
}

#[test]
fn lookups_decide_between_account_and_failure() {
    let account = Account::open(id(5), "Five".to_string(), "USD".to_string(), at(1));
    assert_eq!(found_or_missing(Some(account.clone()), id(5)), Ok(account.clone()));
    assert_eq!(
        found_or_missing(None, id(5)),
        Err(DomainError::AccountNotFound("00000000-0000-0000-0000-000000000005".to_string()))
    );
    assert_eq!(free_or_taken(None, "Six".to_string()), Ok("Six".to_string()));
    assert_eq!(
        free_or_taken(Some(account), "FIVE".to_string()),
        Err(DomainError::AccountAlreadyExists("FIVE".to_string()))
    );
}
