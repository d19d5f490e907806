//! The instruction wire format: an opcode byte followed by fixed-width
//! little-endian fields.  `pack` and `unpack` are exact inverses; a byte
//! string is accepted if and only if it is the encoding of an instruction.

use vstd::prelude::*;

verus! {

use vstd::bytes::spec_u16_to_le_bytes;
use vstd::bytes::spec_u64_to_le_bytes;
use vstd::bytes::lemma_auto_spec_u16_to_from_le_bytes;
use vstd::bytes::lemma_auto_spec_u64_to_from_le_bytes;
use vstd::bytes::u16_from_le_bytes;
use vstd::bytes::u16_to_le_bytes;
use vstd::bytes::u64_from_le_bytes;
use vstd::bytes::u64_to_le_bytes;
use vstd::slice::slice_index_get;
use vstd::slice::slice_subrange;
use crate::error::GatewayError;

/// The four transitions a transaction can request, with their payloads.
#[derive(Debug, Clone, PartialEq, Eq)]
pub enum GatewayInstruction {
    InitializeGateway {
        base_price_lamports: u64,
        max_surge_bps: u16,
        period_limit: u64,
        period_seconds: i64,
        bucket_capacity: u64,
        refill_per_second: u64,
    },
    RegisterConsumer { api_key_id: u64, api_key_hash: [u8; 32] },
    TopUp { lamports: u64 },
    Consume { api_key_id: u64, presented_api_key_hash: [u8; 32] },
}

/// The encoding of one instruction: its opcode byte, then each field in
/// declaration order, integers little-endian (signed ones two's
/// complement) and digests as their raw 32 bytes.
pub open spec fn spec_pack_bytes(ix: GatewayInstruction) -> Seq<u8> {
    match ix {
        GatewayInstruction::InitializeGateway {
            base_price_lamports,
            max_surge_bps,
            period_limit,
            period_seconds,
            bucket_capacity,
            refill_per_second,
        } => seq![0u8] + spec_u64_to_le_bytes(base_price_lamports) + spec_u16_to_le_bytes(
            max_surge_bps,
        ) + spec_u64_to_le_bytes(period_limit) + spec_u64_to_le_bytes(period_seconds as u64)
            + spec_u64_to_le_bytes(bucket_capacity) + spec_u64_to_le_bytes(refill_per_second),
        GatewayInstruction::RegisterConsumer { api_key_id, api_key_hash } => seq![1u8]
            + spec_u64_to_le_bytes(api_key_id) + api_key_hash@,
        GatewayInstruction::TopUp { lamports } => seq![2u8] + spec_u64_to_le_bytes(lamports),
        GatewayInstruction::Consume { api_key_id, presented_api_key_hash } => seq![3u8]
            + spec_u64_to_le_bytes(api_key_id) + presented_api_key_hash@,
    }
}

/// Every encoding starts with its variant's opcode and has the exact
/// length that opcode dictates.
proof fn lemma_pack_bytes_shape(ix: GatewayInstruction)
    ensures
        spec_pack_bytes(ix).len() >= 9,
        0 <= spec_pack_bytes(ix)[0] <= 3,
        spec_pack_bytes(ix)[0] == 0 <==> ix is InitializeGateway,
        spec_pack_bytes(ix)[0] == 1 <==> ix is RegisterConsumer,
        spec_pack_bytes(ix)[0] == 2 <==> ix is TopUp,
        spec_pack_bytes(ix)[0] == 3 <==> ix is Consume,
        spec_pack_bytes(ix)[0] == 0 ==> spec_pack_bytes(ix).len() == 43,
        spec_pack_bytes(ix)[0] == 1 ==> spec_pack_bytes(ix).len() == 41,
        spec_pack_bytes(ix)[0] == 2 ==> spec_pack_bytes(ix).len() == 9,
        spec_pack_bytes(ix)[0] == 3 ==> spec_pack_bytes(ix).len() == 41,
{
    lemma_auto_spec_u16_to_from_le_bytes();
    lemma_auto_spec_u64_to_from_le_bytes();
}

/// Distinct instructions never share an encoding: the opcode byte pins
/// the variant and every field is recoverable from its fixed window.
/// With [`GatewayInstruction::unpack`]'s contract this makes decoding the
/// exact inverse of encoding.
pub proof fn lemma_pack_bytes_injective(a: GatewayInstruction, b: GatewayInstruction)
    requires
        spec_pack_bytes(a) == spec_pack_bytes(b),
    ensures
        a == b,
{
    lemma_auto_spec_u16_to_from_le_bytes();
    lemma_auto_spec_u64_to_from_le_bytes();
    lemma_pack_bytes_shape(a);
    lemma_pack_bytes_shape(b);
    let e = spec_pack_bytes(a);
    match (a, b) {
        (
            GatewayInstruction::InitializeGateway {
                base_price_lamports: p1,
                max_surge_bps: s1,
                period_limit: l1,
                period_seconds: w1,
                bucket_capacity: c1,
                refill_per_second: f1,
            },
            GatewayInstruction::InitializeGateway {
                base_price_lamports: p2,
                max_surge_bps: s2,
                period_limit: l2,
                period_seconds: w2,
                bucket_capacity: c2,
                refill_per_second: f2,
            },
        ) => {
            assert(spec_u64_to_le_bytes(p1) =~= e.subrange(1, 9));
            assert(spec_u64_to_le_bytes(p2) =~= e.subrange(1, 9));
            assert(spec_u16_to_le_bytes(s1) =~= e.subrange(9, 11));
            assert(spec_u16_to_le_bytes(s2) =~= e.subrange(9, 11));
            assert(spec_u64_to_le_bytes(l1) =~= e.subrange(11, 19));
            assert(spec_u64_to_le_bytes(l2) =~= e.subrange(11, 19));
            assert(spec_u64_to_le_bytes(w1 as u64) =~= e.subrange(19, 27));
            assert(spec_u64_to_le_bytes(w2 as u64) =~= e.subrange(19, 27));
            assert(spec_u64_to_le_bytes(c1) =~= e.subrange(27, 35));
            assert(spec_u64_to_le_bytes(c2) =~= e.subrange(27, 35));
            assert(spec_u64_to_le_bytes(f1) =~= e.subrange(35, 43));
            assert(spec_u64_to_le_bytes(f2) =~= e.subrange(35, 43));
            assert(w1 == w2) by (bit_vector)
                requires
                    w1 as u64 == w2 as u64,
            ;
        },
        (
            GatewayInstruction::RegisterConsumer { api_key_id: i1, api_key_hash: h1 },
            GatewayInstruction::RegisterConsumer { api_key_id: i2, api_key_hash: h2 },
        ) => {
            assert(spec_u64_to_le_bytes(i1) =~= e.subrange(1, 9));
            assert(spec_u64_to_le_bytes(i2) =~= e.subrange(1, 9));
            assert(h1@ =~= e.subrange(9, 41));
            assert(h2@ =~= e.subrange(9, 41));
            assert(h1 =~= h2);
        },
        (
            GatewayInstruction::TopUp { lamports: m1 },
            GatewayInstruction::TopUp { lamports: m2 },
        ) => {
            assert(spec_u64_to_le_bytes(m1) =~= e.subrange(1, 9));
            assert(spec_u64_to_le_bytes(m2) =~= e.subrange(1, 9));
        },
        (
            GatewayInstruction::Consume { api_key_id: i1, presented_api_key_hash: h1 },
            GatewayInstruction::Consume { api_key_id: i2, presented_api_key_hash: h2 },
        ) => {
            assert(spec_u64_to_le_bytes(i1) =~= e.subrange(1, 9));
            assert(spec_u64_to_le_bytes(i2) =~= e.subrange(1, 9));
            assert(h1@ =~= e.subrange(9, 41));
            assert(h2@ =~= e.subrange(9, 41));
            assert(h1 =~= h2);
        },
        _ => {
            assert(spec_pack_bytes(a)[0] == spec_pack_bytes(b)[0]);
        },
    }
}

/// Append the little-endian bytes of `x` to `out`.
fn push_u64(out: &mut Vec<u8>, x: u64)
    ensures
        final(out)@ == old(out)@ + spec_u64_to_le_bytes(x),
{
    let mut b = u64_to_le_bytes(x);
    out.append(&mut b);
}

/// Append the little-endian bytes of `x` to `out`.
fn push_u16(out: &mut Vec<u8>, x: u16)
    ensures
        final(out)@ == old(out)@ + spec_u16_to_le_bytes(x),
{
    let mut b = u16_to_le_bytes(x);
    out.append(&mut b);
}

/// Append all 32 bytes of `h` to `out`.
fn push_bytes32(out: &mut Vec<u8>, h: &[u8; 32])
    ensures
        final(out)@ == old(out)@ + h@,
{
    let mut i: usize = 0;
    while i < 32
        invariant
            0 <= i <= 32,
            out@ == old(out)@ + h@.subrange(0, i as int),
        decreases 32 - i,
    {
        out.push(h[i]);
        proof {
            assert(old(out)@ + h@.subrange(0, i + 1 as int) =~= (old(out)@ + h@.subrange(
                0,
                i as int,
            )).push(h@[i as int]));
        }
        i = i + 1;
    }
    proof {
        assert(h@.subrange(0, 32) =~= h@);
    }
}

/// Copy 32 bytes out of `s` starting at `off`.
fn read_bytes32(s: &[u8], off: usize) -> (r: [u8; 32])
    requires
        off + 32 <= s@.len(),
    ensures
        r@ == s@.subrange(off as int, off + 32),
{
    let n: usize = s.len();
    let mut r: [u8; 32] = [0u8; 32];
    let mut i: usize = 0;
    while i < 32
        invariant
            0 <= i <= 32,
            off + 32 <= n == s@.len(),
            forall|j: int| 0 <= j < i ==> r@[j] == s@[off + j],
        decreases 32 - i,
    {
        r[i] = *slice_index_get(s, off + i);
        i = i + 1;
    }
    proof {
        assert(r@ =~= s@.subrange(off as int, off + 32));
    }
    r
}

impl GatewayInstruction {
    /// Decode an instruction from its wire bytes.  Accepts exactly the
    /// byte strings that [`spec_pack_bytes`] produces; everything else is
    /// rejected as `InvalidInstruction`.
    pub fn unpack(input: &[u8]) -> (r: Result<GatewayInstruction, GatewayError>)
        ensures
            r matches Ok(ix) ==> spec_pack_bytes(ix) == input@,
            r matches Err(e) ==> e == GatewayError::InvalidInstruction && forall|
                ix: GatewayInstruction,
            | spec_pack_bytes(ix) != input@,
    {
        proof {
            lemma_auto_spec_u16_to_from_le_bytes();
            lemma_auto_spec_u64_to_from_le_bytes();
        }
        if input.len() == 0 {
            proof {
                assert forall|ix: GatewayInstruction| spec_pack_bytes(ix) != input@ by {
                    lemma_pack_bytes_shape(ix);
                }
            }
            return Err(GatewayError::InvalidInstruction);
        }
        let tag: u8 = *slice_index_get(input, 0);
        if tag == 0 {
            if input.len() != 43 {
                proof {
                    assert forall|ix: GatewayInstruction| spec_pack_bytes(ix) != input@ by {
                        lemma_pack_bytes_shape(ix);
                    }
                }
                return Err(GatewayError::InvalidInstruction);
            }
            let base_price_lamports = u64_from_le_bytes(slice_subrange(input, 1, 9));
            let max_surge_bps = u16_from_le_bytes(slice_subrange(input, 9, 11));
            let period_limit = u64_from_le_bytes(slice_subrange(input, 11, 19));
            let ps_raw = u64_from_le_bytes(slice_subrange(input, 19, 27));
            let period_seconds: i64 = #[verifier::truncate] (ps_raw as i64);
            let bucket_capacity = u64_from_le_bytes(slice_subrange(input, 27, 35));
            let refill_per_second = u64_from_le_bytes(slice_subrange(input, 35, 43));
            let ix = GatewayInstruction::InitializeGateway {
                base_price_lamports,
                max_surge_bps,
                period_limit,
                period_seconds,
                bucket_capacity,
                refill_per_second,
            };
            proof {
                assert(period_seconds as u64 == ps_raw) by (bit_vector)
                    requires
                        period_seconds == ps_raw as i64,
                ;
                assert(spec_pack_bytes(ix) =~= input@);
            }
            Ok(ix)
        } else if tag == 1 {
            if input.len() != 41 {
                proof {
                    assert forall|ix: GatewayInstruction| spec_pack_bytes(ix) != input@ by {
                        lemma_pack_bytes_shape(ix);
                    }
                }
                return Err(GatewayError::InvalidInstruction);
            }
            let api_key_id = u64_from_le_bytes(slice_subrange(input, 1, 9));
            let api_key_hash = read_bytes32(input, 9);
            let ix = GatewayInstruction::RegisterConsumer { api_key_id, api_key_hash };
            proof {
                assert(spec_pack_bytes(ix) =~= input@);
            }
            Ok(ix)
        } else if tag == 2 {
            if input.len() != 9 {
                proof {
                    assert forall|ix: GatewayInstruction| spec_pack_bytes(ix) != input@ by {
                        lemma_pack_bytes_shape(ix);
                    }
                }
                return Err(GatewayError::InvalidInstruction);
            }
            let lamports = u64_from_le_bytes(slice_subrange(input, 1, 9));
            let ix = GatewayInstruction::TopUp { lamports };
            proof {
                assert(spec_pack_bytes(ix) =~= input@);
            }
            Ok(ix)
        } else if tag == 3 {
            if input.len() != 41 {
                proof {
                    assert forall|ix: GatewayInstruction| spec_pack_bytes(ix) != input@ by {
                        lemma_pack_bytes_shape(ix);
                    }
                }
                return Err(GatewayError::InvalidInstruction);
            }
            let api_key_id = u64_from_le_bytes(slice_subrange(input, 1, 9));
            let presented_api_key_hash = read_bytes32(input, 9);
            let ix = GatewayInstruction::Consume { api_key_id, presented_api_key_hash };
            proof {
                assert(spec_pack_bytes(ix) =~= input@);
            }
            Ok(ix)
        } else {
            proof {
                assert forall|ix: GatewayInstruction| spec_pack_bytes(ix) != input@ by {
                    lemma_pack_bytes_shape(ix);
                    assert(input@[0] == tag);
                }
            }
            Err(GatewayError::InvalidInstruction)
        }
    }

    /// Encode this instruction into its wire bytes.  Always succeeds; the
    /// `Result` mirrors the fallible signature of the transport layer.
    pub fn pack(&self) -> (r: Result<Vec<u8>, GatewayError>)
        ensures
            r is Ok,
            r matches Ok(bytes) ==> bytes@ == spec_pack_bytes(*self),
    {
        let mut out: Vec<u8> = Vec::new();
        match self {
            GatewayInstruction::InitializeGateway {
                base_price_lamports,
                max_surge_bps,
                period_limit,
                period_seconds,
                bucket_capacity,
                refill_per_second,
            } => {
                out.push(0u8);
                push_u64(&mut out, *base_price_lamports);
                push_u16(&mut out, *max_surge_bps);
                push_u64(&mut out, *period_limit);
                push_u64(&mut out, #[verifier::truncate] (*period_seconds as u64));
                push_u64(&mut out, *bucket_capacity);
                push_u64(&mut out, *refill_per_second);
                proof {
                    assert(out@ =~= spec_pack_bytes(*self));
                }
            },
            GatewayInstruction::RegisterConsumer { api_key_id, api_key_hash } => {
                out.push(1u8);
                push_u64(&mut out, *api_key_id);
                push_bytes32(&mut out, api_key_hash);
                proof {
                    assert(out@ =~= spec_pack_bytes(*self));
                }
            },
            GatewayInstruction::TopUp { lamports } => {
                out.push(2u8);
                push_u64(&mut out, *lamports);
                proof {
                    assert(out@ =~= spec_pack_bytes(*self));
                }
            },
            GatewayInstruction::Consume { api_key_id, presented_api_key_hash } => {
                out.push(3u8);
                push_u64(&mut out, *api_key_id);
                push_bytes32(&mut out, presented_api_key_hash);
                proof {
                    assert(out@ =~= spec_pack_bytes(*self));
                }
            },
        }
        Ok(out)
    }
}

} // verus!
