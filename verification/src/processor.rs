//! The transition dispatcher: authenticates a transaction's signers and
//! account identities, validates derived addresses, and drives the consume
//! engine.  Each operation is a total function from the records and
//! account facts the host hands it to either a new record state or one
//! typed rejection, committing nothing on rejection.

use vstd::prelude::*;

verus! {

use crate::error::GatewayError;
use crate::logic::ConsumeError;
use crate::logic::ConsumerRuntimeState;
use crate::logic::GatewayRules;
use crate::logic::apply_consume;
use crate::logic::spec_consume_commit;
use crate::logic::spec_consume_ok;
use crate::logic::spec_consume_price;
use crate::logic::spec_insufficient_balance;
use crate::logic::spec_quota_exceeded;
use crate::logic::spec_rate_limited;
use crate::state::AccountId;
use crate::state::ConsumerAccount;
use crate::state::GatewayConfig;
use crate::state::bytes32_eq;
use crate::state::consumer_pda;
use crate::state::gateway_pda;
use crate::state::pda_of;
use crate::state::spec_consumer_seeds;
use crate::state::spec_gateway_seeds;

/// What the dispatcher reads of one ledger account referenced by a
/// transaction: its address, which program owns it, and whether the
/// transaction presented it signed and writable.
#[derive(Debug, Clone, Copy, PartialEq, Eq)]
pub struct AccountStatus {
    pub key: AccountId,
    pub owner: AccountId,
    pub is_signer: bool,
    pub is_writable: bool,
}

/// A consume rejection at the dispatcher level: one of the gateway's own
/// error codes, or an arithmetic overflow crediting the treasury.
#[derive(Debug, Clone, Copy, PartialEq, Eq)]
pub enum ProcessError {
    Gateway(GatewayError),
    ArithmeticOverflow,
}

/// What a successful consume commits besides the consumer record: the
/// charge collected and both balances after moving it.
#[derive(Debug, Clone, Copy, PartialEq, Eq)]
pub struct ConsumeOutcome {
    pub charge: u64,
    pub consumer_lamports: u64,
    pub treasury_lamports: u64,
}

/// The host ledger's system program address: the all-zero key.
pub open spec fn spec_system_program_id() -> Seq<u8> {
    Seq::new(32, |i: int| 0u8)
}

/// Whether `key` is the system program's address.
pub fn is_system_program(key: &AccountId) -> (r: bool)
    ensures
        r == (key@ == spec_system_program_id()),
{
    let zero: [u8; 32] = [0u8; 32];
    proof {
        assert(zero@ =~= spec_system_program_id());
    }
    bytes32_eq(&key.bytes, &zero)
}

/// Reject with `Unauthorized` unless the account signed the transaction.
pub fn require_signer(account: &AccountStatus) -> (r: Result<(), GatewayError>)
    ensures
        r is Ok <==> account.is_signer,
        r matches Err(e) ==> e == GatewayError::Unauthorized,
{
    if !account.is_signer {
        return Err(GatewayError::Unauthorized);
    }
    Ok(())
}

/// Reject with `InvalidAccount` unless the account came in writable.
pub fn require_writable(account: &AccountStatus) -> (r: Result<(), GatewayError>)
    ensures
        r is Ok <==> account.is_writable,
        r matches Err(e) ==> e == GatewayError::InvalidAccount,
{
    if !account.is_writable {
        return Err(GatewayError::InvalidAccount);
    }
    Ok(())
}

/// The gateway-level error each engine rejection surfaces as.
pub open spec fn spec_map_consume_error(err: ConsumeError) -> GatewayError {
    match err {
        ConsumeError::RateLimited => GatewayError::RateLimited,
        ConsumeError::QuotaExceeded => GatewayError::QuotaExceeded,
        ConsumeError::InsufficientBalance => GatewayError::InsufficientBalance,
    }
}

/// Surface an engine rejection as the gateway's own error code.
pub fn map_consume_error(err: ConsumeError) -> (r: GatewayError)
    ensures
        r == spec_map_consume_error(err),
{
    match err {
        ConsumeError::RateLimited => GatewayError::RateLimited,
        ConsumeError::QuotaExceeded => GatewayError::QuotaExceeded,
        ConsumeError::InsufficientBalance => GatewayError::InsufficientBalance,
    }
}

/// The pricing and limiting rules a gateway record carries.
pub open spec fn spec_rules_of(g: GatewayConfig) -> GatewayRules {
    GatewayRules {
        base_price_lamports: g.base_price_lamports,
        max_surge_bps: g.max_surge_bps,
        period_limit: g.period_limit,
        period_seconds: g.period_seconds,
        bucket_capacity: g.bucket_capacity,
        refill_per_second: g.refill_per_second,
    }
}

/// The runtime counters a consumer record carries.
pub open spec fn spec_runtime_of(c: ConsumerAccount) -> ConsumerRuntimeState {
    ConsumerRuntimeState {
        bucket_tokens: c.bucket_tokens,
        bucket_last_refill_ts: c.bucket_last_refill_ts,
        quota_remaining: c.quota_remaining,
        quota_period_start_ts: c.quota_period_start_ts,
        total_calls: c.total_calls,
        total_spent_lamports: c.total_spent_lamports,
    }
}

/// The consumer record `c` with its runtime counters replaced by `s`.
pub open spec fn spec_with_runtime(c: ConsumerAccount, s: ConsumerRuntimeState) -> ConsumerAccount {
    ConsumerAccount {
        bucket_tokens: s.bucket_tokens,
        bucket_last_refill_ts: s.bucket_last_refill_ts,
        quota_remaining: s.quota_remaining,
        quota_period_start_ts: s.quota_period_start_ts,
        total_calls: s.total_calls,
        total_spent_lamports: s.total_spent_lamports,
        ..c
    }
}

/// The first rejection an `InitializeGateway` transaction runs into, in
/// check order, or `None` if every check passes.
pub open spec fn spec_init_gateway_check(
    admin: AccountStatus,
    gateway_account: AccountStatus,
    system_program_key: Seq<u8>,
    program_id: Seq<u8>,
    existing: GatewayConfig,
) -> Option<GatewayError> {
    if !admin.is_signer {
        Some(GatewayError::Unauthorized)
    } else if !gateway_account.is_writable {
        Some(GatewayError::InvalidAccount)
    } else if system_program_key != spec_system_program_id() {
        Some(GatewayError::InvalidAccount)
    } else if gateway_account.key@ != pda_of(spec_gateway_seeds(admin.key@), program_id).0 {
        Some(GatewayError::InvalidAccount)
    } else if existing.is_initialized {
        Some(GatewayError::AlreadyInitialized)
    } else {
        None
    }
}

/// Validate an `InitializeGateway` transaction and build the gateway
/// record to create: the admin must sign, the gateway account must be
/// writable and stand at its canonically derived address, and no record
/// may already be initialized there.  `existing` is the record currently
/// stored at that address (all zeroes if it was just created).
pub fn initialize_gateway(
    program_id: &AccountId,
    admin: &AccountStatus,
    gateway_account: &AccountStatus,
    treasury_key: &AccountId,
    backend_signer_key: &AccountId,
    system_program_key: &AccountId,
    existing: &GatewayConfig,
    base_price_lamports: u64,
    max_surge_bps: u16,
    period_limit: u64,
    period_seconds: i64,
    bucket_capacity: u64,
    refill_per_second: u64,
) -> (r: Result<GatewayConfig, GatewayError>)
    ensures
        r matches Err(e) ==> Some(e) == spec_init_gateway_check(
            *admin,
            *gateway_account,
            system_program_key@,
            program_id@,
            *existing,
        ),
        r is Ok <==> spec_init_gateway_check(
            *admin,
            *gateway_account,
            system_program_key@,
            program_id@,
            *existing,
        ) is None,
        r matches Ok(cfg) ==> cfg == (GatewayConfig {
            is_initialized: true,
            admin: admin.key,
            treasury: *treasury_key,
            backend_signer: *backend_signer_key,
            base_price_lamports,
            max_surge_bps,
            period_limit,
            period_seconds,
            bucket_capacity,
            refill_per_second,
            bump: pda_of(spec_gateway_seeds(admin.key@), program_id@).1,
        }),
{
    match require_signer(admin) {
        Err(e) => {
            return Err(e);
        },
        Ok(_) => {},
    }
    match require_writable(gateway_account) {
        Err(e) => {
            return Err(e);
        },
        Ok(_) => {},
    }
    if !is_system_program(system_program_key) {
        return Err(GatewayError::InvalidAccount);
    }
    let (expected_gateway, bump) = gateway_pda(&admin.key, program_id);
    if !expected_gateway.same_as(&gateway_account.key) {
        return Err(GatewayError::InvalidAccount);
    }
    if existing.is_initialized {
        return Err(GatewayError::AlreadyInitialized);
    }
    Ok(
        GatewayConfig {
            is_initialized: true,
            admin: admin.key,
            treasury: *treasury_key,
            backend_signer: *backend_signer_key,
            base_price_lamports,
            max_surge_bps,
            period_limit,
            period_seconds,
            bucket_capacity,
            refill_per_second,
            bump,
        },
    )
}

/// The first rejection a `RegisterConsumer` transaction runs into, in
/// check order, or `None` if every check passes.
pub open spec fn spec_register_consumer_check(
    owner: AccountStatus,
    gateway_account: AccountStatus,
    consumer_account: AccountStatus,
    system_program_key: Seq<u8>,
    program_id: Seq<u8>,
    gateway: GatewayConfig,
    existing: ConsumerAccount,
    api_key_id: u64,
) -> Option<GatewayError> {
    if !owner.is_signer {
        Some(GatewayError::Unauthorized)
    } else if !consumer_account.is_writable {
        Some(GatewayError::InvalidAccount)
    } else if system_program_key != spec_system_program_id() {
        Some(GatewayError::InvalidAccount)
    } else if gateway_account.owner@ != program_id {
        Some(GatewayError::InvalidAccount)
    } else if !gateway.is_initialized {
        Some(GatewayError::InvalidAccount)
    } else if consumer_account.key@ != pda_of(
        spec_consumer_seeds(gateway_account.key@, owner.key@, api_key_id),
        program_id,
    ).0 {
        Some(GatewayError::InvalidAccount)
    } else if existing.is_initialized {
        Some(GatewayError::AlreadyInitialized)
    } else {
        None
    }
}

/// Validate a `RegisterConsumer` transaction and build the consumer
/// record to create, seeded with a full bucket and a full quota from the
/// gateway's rules and zero counters.  `gateway` is the record read from
/// the gateway account; `existing` the record currently stored at the
/// consumer address (all zeroes if it was just created); `now_ts` the
/// host clock's current timestamp.
pub fn register_consumer(
    program_id: &AccountId,
    owner: &AccountStatus,
    gateway_account: &AccountStatus,
    consumer_account: &AccountStatus,
    system_program_key: &AccountId,
    gateway: &GatewayConfig,
    existing: &ConsumerAccount,
    api_key_id: u64,
    api_key_hash: [u8; 32],
    now_ts: i64,
) -> (r: Result<ConsumerAccount, GatewayError>)
    ensures
        r matches Err(e) ==> Some(e) == spec_register_consumer_check(
            *owner,
            *gateway_account,
            *consumer_account,
            system_program_key@,
            program_id@,
            *gateway,
            *existing,
            api_key_id,
        ),
        r is Ok <==> spec_register_consumer_check(
            *owner,
            *gateway_account,
            *consumer_account,
            system_program_key@,
            program_id@,
            *gateway,
            *existing,
            api_key_id,
        ) is None,
        r matches Ok(consumer) ==> consumer == (ConsumerAccount {
            is_initialized: true,
            gateway: gateway_account.key,
            owner: owner.key,
            api_key_id,
            api_key_hash,
            bucket_tokens: gateway.bucket_capacity,
            bucket_last_refill_ts: now_ts,
            quota_remaining: gateway.period_limit,
            quota_period_start_ts: now_ts,
            total_calls: 0,
            total_spent_lamports: 0,
            bump: pda_of(
                spec_consumer_seeds(gateway_account.key@, owner.key@, api_key_id),
                program_id@,
            ).1,
        }),
{
    match require_signer(owner) {
        Err(e) => {
            return Err(e);
        },
        Ok(_) => {},
    }
    match require_writable(consumer_account) {
        Err(e) => {
            return Err(e);
        },
        Ok(_) => {},
    }
    if !is_system_program(system_program_key) {
        return Err(GatewayError::InvalidAccount);
    }
    if !gateway_account.owner.same_as(program_id) {
        return Err(GatewayError::InvalidAccount);
    }
    if !gateway.is_initialized {
        return Err(GatewayError::InvalidAccount);
    }
    let (expected_consumer, bump) = consumer_pda(
        &gateway_account.key,
        &owner.key,
        api_key_id,
        program_id,
    );
    if !expected_consumer.same_as(&consumer_account.key) {
        return Err(GatewayError::InvalidAccount);
    }
    if existing.is_initialized {
        return Err(GatewayError::AlreadyInitialized);
    }
    Ok(
        ConsumerAccount {
            is_initialized: true,
            gateway: gateway_account.key,
            owner: owner.key,
            api_key_id,
            api_key_hash,
            bucket_tokens: gateway.bucket_capacity,
            bucket_last_refill_ts: now_ts,
            quota_remaining: gateway.period_limit,
            quota_period_start_ts: now_ts,
            total_calls: 0,
            total_spent_lamports: 0,
            bump,
        },
    )
}

/// The first rejection a `TopUp` transaction runs into, in check order,
/// or `None` if the owner may fund the consumer record.
pub open spec fn spec_topup_check(
    owner: AccountStatus,
    system_program_key: Seq<u8>,
    consumer: ConsumerAccount,
) -> Option<GatewayError> {
    if !owner.is_signer {
        Some(GatewayError::Unauthorized)
    } else if system_program_key != spec_system_program_id() {
        Some(GatewayError::InvalidAccount)
    } else if !consumer.is_initialized || consumer.owner@ != owner.key@ {
        Some(GatewayError::Unauthorized)
    } else {
        None
    }
}

/// Validate a `TopUp` transaction: the caller must sign and be the
/// consumer record's owner.  The balance movement itself is the host's
/// transfer, performed only after this returns `Ok`.
pub fn authorize_topup(
    owner: &AccountStatus,
    system_program_key: &AccountId,
    consumer: &ConsumerAccount,
) -> (r: Result<(), GatewayError>)
    ensures
        r matches Err(e) ==> Some(e) == spec_topup_check(*owner, system_program_key@, *consumer),
        r is Ok <==> spec_topup_check(*owner, system_program_key@, *consumer) is None,
{
    match require_signer(owner) {
        Err(e) => {
            return Err(e);
        },
        Ok(_) => {},
    }
    if !is_system_program(system_program_key) {
        return Err(GatewayError::InvalidAccount);
    }
    if !consumer.is_initialized || !consumer.owner.same_as(&owner.key) {
        return Err(GatewayError::Unauthorized);
    }
    Ok(())
}

/// The first rejection a `Consume` transaction runs into before the
/// engine runs, in check order, or `None` if the engine may decide.
pub open spec fn spec_consume_check(
    backend: AccountStatus,
    gateway_account: AccountStatus,
    consumer_account: AccountStatus,
    treasury_account: AccountStatus,
    gateway: GatewayConfig,
    consumer: ConsumerAccount,
    api_key_id: u64,
    presented_api_key_hash: Seq<u8>,
) -> Option<GatewayError> {
    if !backend.is_signer {
        Some(GatewayError::Unauthorized)
    } else if !consumer_account.is_writable {
        Some(GatewayError::InvalidAccount)
    } else if !treasury_account.is_writable {
        Some(GatewayError::InvalidAccount)
    } else if !gateway.is_initialized {
        Some(GatewayError::InvalidAccount)
    } else if gateway.backend_signer@ != backend.key@ {
        Some(GatewayError::Unauthorized)
    } else if gateway.treasury@ != treasury_account.key@ {
        Some(GatewayError::InvalidAccount)
    } else if !consumer.is_initialized {
        Some(GatewayError::InvalidAccount)
    } else if consumer.gateway@ != gateway_account.key@ {
        Some(GatewayError::InvalidAccount)
    } else if consumer.api_key_id != api_key_id || consumer.api_key_hash@
        != presented_api_key_hash {
        Some(GatewayError::ApiKeyMismatch)
    } else {
        None
    }
}

/// Run one `Consume` transaction against loaded records: authenticate the
/// backend, check every account identity and the presented credential,
/// let the engine decide, and on success move the charge from the
/// consumer's balance to the treasury's and commit the updated counters.
/// On any rejection the consumer record is left exactly as it was and no
/// balance moves.
pub fn process_consume(
    backend: &AccountStatus,
    gateway_account: &AccountStatus,
    consumer_account: &AccountStatus,
    treasury_account: &AccountStatus,
    gateway: &GatewayConfig,
    consumer: &mut ConsumerAccount,
    api_key_id: u64,
    presented_api_key_hash: &[u8; 32],
    now_ts: i64,
    consumer_lamports: u64,
    treasury_lamports: u64,
    minimum_rent: u64,
) -> (r: Result<ConsumeOutcome, ProcessError>)
    ensures
        r is Err ==> *final(consumer) == *old(consumer),
        spec_consume_check(
            *backend,
            *gateway_account,
            *consumer_account,
            *treasury_account,
            *gateway,
            *old(consumer),
            api_key_id,
            presented_api_key_hash@,
        ) matches Some(e) ==> r == Err::<ConsumeOutcome, ProcessError>(ProcessError::Gateway(e)),
        spec_consume_check(
            *backend,
            *gateway_account,
            *consumer_account,
            *treasury_account,
            *gateway,
            *old(consumer),
            api_key_id,
            presented_api_key_hash@,
        ) is None ==> ({
            let rules = spec_rules_of(*gateway);
            let rt = spec_runtime_of(*old(consumer));
            &&& spec_rate_limited(rules, rt, now_ts) ==> r == Err::<
                ConsumeOutcome,
                ProcessError,
            >(ProcessError::Gateway(GatewayError::RateLimited))
            &&& spec_quota_exceeded(rules, rt, now_ts) ==> r == Err::<
                ConsumeOutcome,
                ProcessError,
            >(ProcessError::Gateway(GatewayError::QuotaExceeded))
            &&& spec_insufficient_balance(rules, rt, now_ts, consumer_lamports, minimum_rent)
                ==> r == Err::<ConsumeOutcome, ProcessError>(
                ProcessError::Gateway(GatewayError::InsufficientBalance),
            )
            &&& spec_consume_ok(rules, rt, now_ts, consumer_lamports, minimum_rent) ==> ({
                let price = spec_consume_price(rules, rt, now_ts);
                &&& treasury_lamports + price > u64::MAX as int ==> r == Err::<
                    ConsumeOutcome,
                    ProcessError,
                >(ProcessError::ArithmeticOverflow)
                &&& treasury_lamports + price <= u64::MAX as int ==> {
                    &&& r matches Ok(o) && o.charge == price && o.consumer_lamports
                        == consumer_lamports - price && o.treasury_lamports == treasury_lamports
                        + price
                    &&& *final(consumer) == spec_with_runtime(
                        *old(consumer),
                        spec_consume_commit(rules, rt, now_ts),
                    )
                }
            })
        }),
{
    match require_signer(backend) {
        Err(e) => {
            return Err(ProcessError::Gateway(e));
        },
        Ok(_) => {},
    }
    match require_writable(consumer_account) {
        Err(e) => {
            return Err(ProcessError::Gateway(e));
        },
        Ok(_) => {},
    }
    match require_writable(treasury_account) {
        Err(e) => {
            return Err(ProcessError::Gateway(e));
        },
        Ok(_) => {},
    }
    if !gateway.is_initialized {
        return Err(ProcessError::Gateway(GatewayError::InvalidAccount));
    }
    if !gateway.backend_signer.same_as(&backend.key) {
        return Err(ProcessError::Gateway(GatewayError::Unauthorized));
    }
    if !gateway.treasury.same_as(&treasury_account.key) {
        return Err(ProcessError::Gateway(GatewayError::InvalidAccount));
    }
    if !consumer.is_initialized {
        return Err(ProcessError::Gateway(GatewayError::InvalidAccount));
    }
    if !consumer.gateway.same_as(&gateway_account.key) {
        return Err(ProcessError::Gateway(GatewayError::InvalidAccount));
    }
    if consumer.api_key_id != api_key_id || !bytes32_eq(
        &consumer.api_key_hash,
        presented_api_key_hash,
    ) {
        return Err(ProcessError::Gateway(GatewayError::ApiKeyMismatch));
    }

    let rules = GatewayRules {
        base_price_lamports: gateway.base_price_lamports,
        max_surge_bps: gateway.max_surge_bps,
        period_limit: gateway.period_limit,
        period_seconds: gateway.period_seconds,
        bucket_capacity: gateway.bucket_capacity,
        refill_per_second: gateway.refill_per_second,
    };
    let mut runtime = ConsumerRuntimeState {
        bucket_tokens: consumer.bucket_tokens,
        bucket_last_refill_ts: consumer.bucket_last_refill_ts,
        quota_remaining: consumer.quota_remaining,
        quota_period_start_ts: consumer.quota_period_start_ts,
        total_calls: consumer.total_calls,
        total_spent_lamports: consumer.total_spent_lamports,
    };

    let charge = match apply_consume(&rules, &mut runtime, now_ts, consumer_lamports, minimum_rent)
        {
        Ok(c) => c,
        Err(e) => {
            return Err(ProcessError::Gateway(map_consume_error(e)));
        },
    };

    let new_treasury_lamports = match treasury_lamports.checked_add(charge) {
        Some(v) => v,
        None => {
            return Err(ProcessError::ArithmeticOverflow);
        },
    };
    let new_consumer_lamports = consumer_lamports - charge;

    consumer.bucket_tokens = runtime.bucket_tokens;
    consumer.bucket_last_refill_ts = runtime.bucket_last_refill_ts;
    consumer.quota_remaining = runtime.quota_remaining;
    consumer.quota_period_start_ts = runtime.quota_period_start_ts;
    consumer.total_calls = runtime.total_calls;
    consumer.total_spent_lamports = runtime.total_spent_lamports;

    Ok(
        ConsumeOutcome {
            charge,
            consumer_lamports: new_consumer_lamports,
            treasury_lamports: new_treasury_lamports,
        },
    )
}

} // verus!
