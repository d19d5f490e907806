//! Persisted records and address derivation.  Ledger addresses are held as
//! plain 32-byte values; deriving one from its identifying fields is done
//! by the host's address service and is trusted at its interface.

use vstd::prelude::*;

verus! {

use vstd::bytes::spec_u64_to_le_bytes;
use vstd::bytes::lemma_auto_spec_u64_to_from_le_bytes;

/// A ledger address: 32 opaque bytes identifying an account.
#[derive(Debug, Clone, Copy, PartialEq, Eq, Hash)]
pub struct AccountId {
    pub bytes: [u8; 32],
}

impl View for AccountId {
    type V = Seq<u8>;

    open spec fn view(&self) -> Seq<u8> {
        self.bytes@
    }
}

/// Compare two 32-byte values for equality.
pub fn bytes32_eq(a: &[u8; 32], b: &[u8; 32]) -> (r: bool)
    ensures
        r == (a@ == b@),
{
    let mut i: usize = 0;
    while i < 32
        invariant
            0 <= i <= 32,
            forall|j: int| 0 <= j < i ==> a@[j] == b@[j],
        decreases 32 - i,
    {
        if a[i] != b[i] {
            return false;
        }
        i = i + 1;
    }
    proof {
        assert(a@ =~= b@);
    }
    true
}

impl AccountId {
    /// Whether this address equals `other`.
    pub fn same_as(&self, other: &AccountId) -> (r: bool)
        ensures
            r == (self@ == other@),
    {
        bytes32_eq(&self.bytes, &other.bytes)
    }
}

/// One gateway's configuration record: identities, pricing and limiting
/// rules, and the address-derivation nonce.  Created once, immutable
/// thereafter.
#[derive(Debug, Clone, Copy, PartialEq, Eq)]
pub struct GatewayConfig {
    pub is_initialized: bool,
    pub admin: AccountId,
    pub treasury: AccountId,
    pub backend_signer: AccountId,
    pub base_price_lamports: u64,
    pub max_surge_bps: u16,
    pub period_limit: u64,
    pub period_seconds: i64,
    pub bucket_capacity: u64,
    pub refill_per_second: u64,
    pub bump: u8,
}

/// The byte length of a serialized [`GatewayConfig`] record.
pub const GATEWAY_CONFIG_LEN: usize = 1 + 32 + 32 + 32 + 8 + 2 + 8 + 8 + 8 + 8 + 1;

/// One consumer's record: its identity triple, the stored API-key digest,
/// and the runtime counters the consume transition updates.
#[derive(Debug, Clone, Copy, PartialEq, Eq)]
pub struct ConsumerAccount {
    pub is_initialized: bool,
    pub gateway: AccountId,
    pub owner: AccountId,
    pub api_key_id: u64,
    pub api_key_hash: [u8; 32],
    pub bucket_tokens: u64,
    pub bucket_last_refill_ts: i64,
    pub quota_remaining: u64,
    pub quota_period_start_ts: i64,
    pub total_calls: u64,
    pub total_spent_lamports: u64,
    pub bump: u8,
}

/// The byte length of a serialized [`ConsumerAccount`] record.
pub const CONSUMER_ACCOUNT_LEN: usize = 1 + 32 + 32 + 8 + 32 + 8 + 8 + 8 + 8 + 8 + 8 + 1;

/// The derived address and bump that the host's address service returns
/// for the given seed list under the given program id.  Deterministic: it
/// depends on the seeds and the program id alone.
pub uninterp spec fn pda_of(seeds: Seq<Seq<u8>>, program_id: Seq<u8>) -> (Seq<u8>, u8);

/// The fixed tag `"gateway"` that starts every gateway seed list.
pub open spec fn spec_gateway_tag() -> Seq<u8> {
    seq![103u8, 97u8, 116u8, 101u8, 119u8, 97u8, 121u8]
}

/// The fixed tag `"consumer"` that starts every consumer seed list.
pub open spec fn spec_consumer_tag() -> Seq<u8> {
    seq![99u8, 111u8, 110u8, 115u8, 117u8, 109u8, 101u8, 114u8]
}

/// The seed list a gateway record's address is derived from.
pub open spec fn spec_gateway_seeds(admin: Seq<u8>) -> Seq<Seq<u8>> {
    seq![spec_gateway_tag(), admin]
}

/// The seed list a consumer record's address is derived from.
pub open spec fn spec_consumer_seeds(gateway: Seq<u8>, owner: Seq<u8>, api_key_id: u64) -> Seq<
    Seq<u8>,
> {
    seq![spec_consumer_tag(), gateway, owner, spec_u64_to_le_bytes(api_key_id)]
}

/// Derive the gateway record's address for `admin` under `program_id`.
///
/// Relies on `solana_program::pubkey::Pubkey::find_program_address`: the
/// returned address and bump seed are a deterministic function of the seed
/// slices and the program id (a SHA-256-based search over bump seeds, no
/// other input).  It aborts only in the astronomically unlikely case that
/// no bump seed yields a valid address, exactly as the host's own
/// derivation would for the same seeds.
#[verifier::external_body]
pub fn gateway_pda(admin: &AccountId, program_id: &AccountId) -> (r: (AccountId, u8))
    ensures
        (r.0@, r.1) == pda_of(spec_gateway_seeds(admin@), program_id@),
{
    let program = solana_program::pubkey::Pubkey::new_from_array(program_id.bytes);
    let (key, bump) = solana_program::pubkey::Pubkey::find_program_address(
        &[b"gateway", &admin.bytes],
        &program,
    );
    (AccountId { bytes: key.to_bytes() }, bump)
}

/// Derive the consumer record's address for the `(gateway, owner,
/// api_key_id)` triple under `program_id`.
///
/// Relies on `solana_program::pubkey::Pubkey::find_program_address`, as
/// [`gateway_pda`] does.
#[verifier::external_body]
pub fn consumer_pda(
    gateway: &AccountId,
    owner: &AccountId,
    api_key_id: u64,
    program_id: &AccountId,
) -> (r: (AccountId, u8))
    ensures
        (r.0@, r.1) == pda_of(spec_consumer_seeds(gateway@, owner@, api_key_id), program_id@),
{
    let program = solana_program::pubkey::Pubkey::new_from_array(program_id.bytes);
    let (key, bump) = solana_program::pubkey::Pubkey::find_program_address(
        &[b"consumer", &gateway.bytes, &owner.bytes, &api_key_id.to_le_bytes()],
        &program,
    );
    (AccountId { bytes: key.to_bytes() }, bump)
}

/// The 32-byte digest stored for an API key.  Deterministic: it depends on
/// the key's characters alone.
pub uninterp spec fn spec_api_key_digest(input: Seq<char>) -> Seq<u8>;

/// Digest an API key for storage or comparison.
///
/// Relies on `solana_program::hash::hash`: a SHA-256 digest of the input
/// bytes, depending on the input alone.
#[verifier::external_body]
pub fn api_key_hash(input: &str) -> (r: [u8; 32])
    ensures
        r@ == spec_api_key_digest(input@),
{
    solana_program::hash::hash(input.as_bytes()).to_bytes()
}

/// Distinct key ids never share a consumer seed list: the two derivations
/// feed the address service different inputs.  (That the derived addresses
/// themselves differ is a collision-resistance property of the service,
/// not provable here.)
pub proof fn lemma_consumer_seeds_distinct(
    gateway: Seq<u8>,
    owner: Seq<u8>,
    id1: u64,
    id2: u64,
)
    requires
        id1 != id2,
    ensures
        spec_consumer_seeds(gateway, owner, id1) != spec_consumer_seeds(gateway, owner, id2),
{
    lemma_auto_spec_u64_to_from_le_bytes();
    assert(spec_u64_to_le_bytes(id1) != spec_u64_to_le_bytes(id2));
    assert(spec_consumer_seeds(gateway, owner, id1)[3] != spec_consumer_seeds(
        gateway,
        owner,
        id2,
    )[3]);
}

} // verus!
