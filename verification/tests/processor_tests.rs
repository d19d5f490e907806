use solagate::error::GatewayError;
use solagate::processor::{
    authorize_topup, initialize_gateway, map_consume_error, process_consume, register_consumer,
    AccountStatus, ProcessError,
};
use solagate::logic::ConsumeError;
use solagate::state::{consumer_pda, gateway_pda, AccountId, ConsumerAccount, GatewayConfig};

fn id(fill: u8) -> AccountId {
    AccountId { bytes: [fill; 32] }
}

fn status(key: AccountId, owner: AccountId, is_signer: bool, is_writable: bool) -> AccountStatus {
    AccountStatus { key, owner, is_signer, is_writable }
}

fn zero_gateway() -> GatewayConfig {
    GatewayConfig {
        is_initialized: false,
        admin: id(0),
        treasury: id(0),
        backend_signer: id(0),
        base_price_lamports: 0,
        max_surge_bps: 0,
        period_limit: 0,
        period_seconds: 0,
        bucket_capacity: 0,
        refill_per_second: 0,
        bump: 0,
    }
}

fn zero_consumer() -> ConsumerAccount {
    ConsumerAccount {
        is_initialized: false,
        gateway: id(0),
        owner: id(0),
        api_key_id: 0,
        api_key_hash: [0u8; 32],
        bucket_tokens: 0,
        bucket_last_refill_ts: 0,
        quota_remaining: 0,
        quota_period_start_ts: 0,
        total_calls: 0,
        total_spent_lamports: 0,
        bump: 0,
    }
}

fn test_gateway(program_id: &AccountId, admin: &AccountId) -> GatewayConfig {
    let (_, bump) = gateway_pda(admin, program_id);
    GatewayConfig {
        is_initialized: true,
        admin: *admin,
        treasury: id(4),
        backend_signer: id(1),
        base_price_lamports: 1_000,
        max_surge_bps: 2_000,
        period_limit: 100,
        period_seconds: 60,
        bucket_capacity: 10,
        refill_per_second: 2,
        bump,
    }
}

fn test_consumer(gateway_key: &AccountId, owner: &AccountId) -> ConsumerAccount {
    ConsumerAccount {
        is_initialized: true,
        gateway: *gateway_key,
        owner: *owner,
        api_key_id: 7,
        api_key_hash: [9u8; 32],
        bucket_tokens: 5,
        bucket_last_refill_ts: 100,
        quota_remaining: 100,
        quota_period_start_ts: 100,
        total_calls: 0,
        total_spent_lamports: 0,
        bump: 255,
    }
}

#[test]
fn initialize_gateway_creates_record_at_derived_address() {
    let program_id = id(6);
    let admin_key = id(5);
    let (gateway_key, bump) = gateway_pda(&admin_key, &program_id);
    let admin = status(admin_key, id(0), true, true);
    let gateway_account = status(gateway_key, program_id, false, true);

    let cfg = initialize_gateway(
        &program_id,
        &admin,
        &gateway_account,
        &id(4),
        &id(1),
        &id(0),
        &zero_gateway(),
        1_000,
        2_000,
        100,
        60,
        10,
        2,
    )
    .expect("init ok");

    assert!(cfg.is_initialized);
    assert_eq!(cfg.admin, admin_key);
    assert_eq!(cfg.treasury, id(4));
    assert_eq!(cfg.backend_signer, id(1));
    assert_eq!(cfg.base_price_lamports, 1_000);
    assert_eq!(cfg.bump, bump);
}

#[test]
fn initialize_gateway_rejects_unsigned_admin() {
    let program_id = id(6);
    let admin_key = id(5);
    let (gateway_key, _) = gateway_pda(&admin_key, &program_id);
    let admin = status(admin_key, id(0), false, true);
    let gateway_account = status(gateway_key, program_id, false, true);

    let err = initialize_gateway(
        &program_id, &admin, &gateway_account, &id(4), &id(1), &id(0), &zero_gateway(),
        1_000, 2_000, 100, 60, 10, 2,
    )
    .expect_err("unsigned");
    assert_eq!(err, GatewayError::Unauthorized);
}

#[test]
fn initialize_gateway_rejects_wrong_derived_address() {
    let program_id = id(6);
    let admin = status(id(5), id(0), true, true);
    // An arbitrary address instead of the derived one.
    let gateway_account = status(id(8), program_id, false, true);

    let err = initialize_gateway(
        &program_id, &admin, &gateway_account, &id(4), &id(1), &id(0), &zero_gateway(),
        1_000, 2_000, 100, 60, 10, 2,
    )
    .expect_err("address confusion");
    assert_eq!(err, GatewayError::InvalidAccount);
}

#[test]
fn initialize_gateway_rejects_existing_record() {
    let program_id = id(6);
    let admin_key = id(5);
    let (gateway_key, _) = gateway_pda(&admin_key, &program_id);
    let admin = status(admin_key, id(0), true, true);
    let gateway_account = status(gateway_key, program_id, false, true);
    let existing = test_gateway(&program_id, &admin_key);

    let err = initialize_gateway(
        &program_id, &admin, &gateway_account, &id(4), &id(1), &id(0), &existing,
        1_000, 2_000, 100, 60, 10, 2,
    )
    .expect_err("already there");
    assert_eq!(err, GatewayError::AlreadyInitialized);
}

#[test]
fn register_consumer_seeds_full_bucket_and_quota() {
    let program_id = id(6);
    let admin_key = id(5);
    let owner_key = id(3);
    let (gateway_key, _) = gateway_pda(&admin_key, &program_id);
    let (consumer_key, bump) = consumer_pda(&gateway_key, &owner_key, 7, &program_id);
    let owner = status(owner_key, id(0), true, true);
    let gateway_account = status(gateway_key, program_id, false, false);
    let consumer_account = status(consumer_key, program_id, false, true);
    let gateway = test_gateway(&program_id, &admin_key);

    let consumer = register_consumer(
        &program_id,
        &owner,
        &gateway_account,
        &consumer_account,
        &id(0),
        &gateway,
        &zero_consumer(),
        7,
        [9u8; 32],
        1_234,
    )
    .expect("register ok");

    assert!(consumer.is_initialized);
    assert_eq!(consumer.gateway, gateway_key);
    assert_eq!(consumer.owner, owner_key);
    assert_eq!(consumer.bucket_tokens, 10);
    assert_eq!(consumer.quota_remaining, 100);
    assert_eq!(consumer.bucket_last_refill_ts, 1_234);
    assert_eq!(consumer.quota_period_start_ts, 1_234);
    assert_eq!(consumer.total_calls, 0);
    assert_eq!(consumer.total_spent_lamports, 0);
    assert_eq!(consumer.bump, bump);
}

#[test]
fn register_consumer_requires_initialized_gateway() {
    let program_id = id(6);
    let owner_key = id(3);
    let gateway_key = id(8);
    let (consumer_key, _) = consumer_pda(&gateway_key, &owner_key, 7, &program_id);
    let owner = status(owner_key, id(0), true, true);
    let gateway_account = status(gateway_key, program_id, false, false);
    let consumer_account = status(consumer_key, program_id, false, true);

    let err = register_consumer(
        &program_id,
        &owner,
        &gateway_account,
        &consumer_account,
        &id(0),
        &zero_gateway(),
        &zero_consumer(),
        7,
        [9u8; 32],
        1_234,
    )
    .expect_err("gateway missing");
    assert_eq!(err, GatewayError::InvalidAccount);
}

#[test]
fn topup_requires_owning_signer() {
    let owner_key = id(3);
    let owner = status(owner_key, id(0), true, false);
    let mut consumer = test_consumer(&id(8), &owner_key);

    assert!(authorize_topup(&owner, &id(0), &consumer).is_ok());

    // A signer who is not the record's owner is turned away.
    let stranger = status(id(2), id(0), true, false);
    assert_eq!(
        authorize_topup(&stranger, &id(0), &consumer).expect_err("stranger"),
        GatewayError::Unauthorized
    );

    // An uninitialized record cannot be funded.
    consumer.is_initialized = false;
    assert_eq!(
        authorize_topup(&owner, &id(0), &consumer).expect_err("uninitialized"),
        GatewayError::Unauthorized
    );
}

#[test]
fn consume_moves_charge_and_commits_counters() {
    let program_id = id(6);
    let gateway_key = id(8);
    let backend = status(id(1), id(0), true, false);
    let gateway_account = status(gateway_key, program_id, false, false);
    let consumer_account = status(id(7), program_id, false, true);
    let treasury_account = status(id(4), id(0), false, true);
    let gateway = test_gateway(&program_id, &id(5));
    let mut consumer = test_consumer(&gateway_key, &id(3));

    let outcome = process_consume(
        &backend,
        &gateway_account,
        &consumer_account,
        &treasury_account,
        &gateway,
        &mut consumer,
        7,
        &[9u8; 32],
        101,
        5_000_000,
        11,
        1_000_000,
    )
    .expect("consume ok");

    assert_eq!(outcome.charge, 1_002);
    assert_eq!(outcome.consumer_lamports, 5_000_000 - 1_002);
    assert_eq!(outcome.treasury_lamports, 11 + 1_002);
    assert_eq!(consumer.quota_remaining, 99);
    assert_eq!(consumer.total_calls, 1);
    assert_eq!(consumer.total_spent_lamports, 1_002);
    assert_eq!(consumer.bucket_tokens, 6);
    assert_eq!(consumer.bucket_last_refill_ts, 101);
}

#[test]
fn consume_rejects_wrong_backend_signer() {
    let program_id = id(6);
    let gateway_key = id(8);
    let impostor = status(id(2), id(0), true, false);
    let gateway_account = status(gateway_key, program_id, false, false);
    let consumer_account = status(id(7), program_id, false, true);
    let treasury_account = status(id(4), id(0), false, true);
    let gateway = test_gateway(&program_id, &id(5));
    let mut consumer = test_consumer(&gateway_key, &id(3));

    let err = process_consume(
        &impostor, &gateway_account, &consumer_account, &treasury_account, &gateway,
        &mut consumer, 7, &[9u8; 32], 101, 5_000_000, 11, 1_000_000,
    )
    .expect_err("impostor");
    assert_eq!(err, ProcessError::Gateway(GatewayError::Unauthorized));
}

#[test]
fn consume_rejects_mismatched_credential() {
    let program_id = id(6);
    let gateway_key = id(8);
    let backend = status(id(1), id(0), true, false);
    let gateway_account = status(gateway_key, program_id, false, false);
    let consumer_account = status(id(7), program_id, false, true);
    let treasury_account = status(id(4), id(0), false, true);
    let gateway = test_gateway(&program_id, &id(5));
    let mut consumer = test_consumer(&gateway_key, &id(3));
    let before = consumer;

    // Wrong digest.
    let err = process_consume(
        &backend, &gateway_account, &consumer_account, &treasury_account, &gateway,
        &mut consumer, 7, &[8u8; 32], 101, 5_000_000, 11, 1_000_000,
    )
    .expect_err("wrong digest");
    assert_eq!(err, ProcessError::Gateway(GatewayError::ApiKeyMismatch));

    // Wrong key id, right digest: the same opaque rejection.
    let err = process_consume(
        &backend, &gateway_account, &consumer_account, &treasury_account, &gateway,
        &mut consumer, 8, &[9u8; 32], 101, 5_000_000, 11, 1_000_000,
    )
    .expect_err("wrong id");
    assert_eq!(err, ProcessError::Gateway(GatewayError::ApiKeyMismatch));
    assert_eq!(consumer, before);
}

#[test]
fn consume_rate_limit_reaches_dispatcher() {
    let program_id = id(6);
    let gateway_key = id(8);
    let backend = status(id(1), id(0), true, false);
    let gateway_account = status(gateway_key, program_id, false, false);
    let consumer_account = status(id(7), program_id, false, true);
    let treasury_account = status(id(4), id(0), false, true);
    let mut gateway = test_gateway(&program_id, &id(5));
    gateway.bucket_capacity = 1;
    gateway.refill_per_second = 0;
    let mut consumer = test_consumer(&gateway_key, &id(3));
    consumer.bucket_tokens = 0;
    let before = consumer;

    let err = process_consume(
        &backend, &gateway_account, &consumer_account, &treasury_account, &gateway,
        &mut consumer, 7, &[9u8; 32], 101, 5_000_000, 11, 1_000_000,
    )
    .expect_err("rate limited");
    assert_eq!(err, ProcessError::Gateway(GatewayError::RateLimited));
    assert_eq!(consumer, before);
}

#[test]
fn consume_rejects_treasury_overflow_without_commit() {
    let program_id = id(6);
    let gateway_key = id(8);
    let backend = status(id(1), id(0), true, false);
    let gateway_account = status(gateway_key, program_id, false, false);
    let consumer_account = status(id(7), program_id, false, true);
    let treasury_account = status(id(4), id(0), false, true);
    let gateway = test_gateway(&program_id, &id(5));
    let mut consumer = test_consumer(&gateway_key, &id(3));
    let before = consumer;

    let err = process_consume(
        &backend, &gateway_account, &consumer_account, &treasury_account, &gateway,
        &mut consumer, 7, &[9u8; 32], 101, 5_000_000, u64::MAX, 1_000_000,
    )
    .expect_err("treasury overflow");
    assert_eq!(err, ProcessError::ArithmeticOverflow);
    assert_eq!(consumer, before);
}

#[test]
fn engine_errors_map_to_gateway_codes() {
    assert_eq!(map_consume_error(ConsumeError::RateLimited), GatewayError::RateLimited);
    assert_eq!(map_consume_error(ConsumeError::QuotaExceeded), GatewayError::QuotaExceeded);
    assert_eq!(
        map_consume_error(ConsumeError::InsufficientBalance),
        GatewayError::InsufficientBalance
    );
}

#[test]
fn error_codes_are_stable() {
    assert_eq!(GatewayError::InvalidInstruction.code(), 0);
    assert_eq!(GatewayError::InvalidAccount.code(), 1);
    assert_eq!(GatewayError::Unauthorized.code(), 2);
    assert_eq!(GatewayError::RateLimited.code(), 3);
    assert_eq!(GatewayError::QuotaExceeded.code(), 4);
    assert_eq!(GatewayError::InsufficientBalance.code(), 5);
    assert_eq!(GatewayError::ApiKeyMismatch.code(), 6);
    assert_eq!(GatewayError::AlreadyInitialized.code(), 7);
}
