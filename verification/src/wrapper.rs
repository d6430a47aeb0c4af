//! The wrapper transaction envelope: the unencrypted metadata — fee,
//! signer public key, epoch, quantized gas limit, optional proof-of-work
//! solution — that accompanies an encrypted inner transaction, and the
//! value types it is built from.

use vstd::prelude::*;

use crate::codec::{push_all, push_u64_le, u64_le_bytes};
use crate::crypto::{sha256, sha256_fed, sha256_of, PublicKey, SecretKey};

verus! {

/// Minimum fee amount, in micro units of the fee token.
pub const MIN_FEE: u64 = 100;

/// The quantization step of gas limits. Every externally visible gas
/// ceiling is a multiple of this, so an observer of the chain learns the
/// submitter's gas estimate only up to this resolution.
pub const GAS_LIMIT_RESOLUTION: u64 = 1_000_000;

/// Errors raised while validating a wrapper transaction or recovering its
/// encrypted payload.
#[derive(Clone, Copy, Debug, PartialEq, Eq, Structural)]
pub enum WrapperTxErr {
    /// The hash of the decrypted payload does not match the commitment.
    DecryptedHash,
    /// The decryption did not produce a well-formed inner transaction.
    InvalidTx,
    /// The transaction carries no wrapper envelope.
    InvalidWrapperTx,
    /// A keypair whose public key differs from the one in the wrapper was
    /// used to sign it.
    InvalidKeyPair,
}

/// An unsigned token quantity, in micro units.
#[derive(Clone, Copy, Debug, PartialEq, Eq, Structural)]
pub struct Amount {
    /// Micro units of the token.
    pub micro: u64,
}

impl core::convert::From<u64> for Amount {
    fn from(micro: u64) -> (r: Amount) {
        Amount { micro }
    }
}

impl vstd::std_specs::convert::FromSpecImpl<u64> for Amount {
    open spec fn obeys_from_spec() -> bool {
        true
    }

    open spec fn from_spec(micro: u64) -> Amount {
        Amount { micro }
    }
}

/// A coarse time period; one decryption key is valid per epoch.
#[derive(Clone, Copy, Debug, PartialEq, Eq, Structural)]
pub struct Epoch(pub u64);

/// An account address: opaque bytes. The implicit account of a public key
/// is addressed by the key's digest.
#[derive(Clone, Debug, PartialEq, Eq)]
pub struct Address {
    /// The address's byte representation.
    pub bytes: Vec<u8>,
}

/// A fee: an amount of a specified token.
#[derive(Clone, Debug, PartialEq, Eq)]
pub struct Fee {
    /// Amount of the fee.
    pub amount: Amount,
    /// Address of the token the fee is paid in.
    pub token: Address,
}

/// A gas ceiling, stored only as its multiple of [`GAS_LIMIT_RESOLUTION`],
/// never as the raw requested amount.
#[derive(Clone, Copy, Debug, PartialEq, Eq, Structural)]
pub struct GasLimit {
    /// How many resolution steps the ceiling spans.
    pub multiplier: u64,
}

/// The multiplier a raw gas request quantizes to: the request divided by
/// the resolution, rounded up.
pub open spec fn gas_multiplier_of(amount: u64) -> u64 {
    if GAS_LIMIT_RESOLUTION * (amount / GAS_LIMIT_RESOLUTION) < amount {
        (amount / GAS_LIMIT_RESOLUTION + 1) as u64
    } else {
        amount / GAS_LIMIT_RESOLUTION
    }
}

/// The refund owed for `used_gas` under a ceiling of `limit_raw` gas
/// units: one full resolution step when usage stays a step or more under
/// the ceiling (capping what the refund reveals of true usage), nothing
/// when the ceiling was reached, the exact remainder in between.
pub open spec fn spec_refund(limit_raw: int, used_gas: u64) -> int {
    if used_gas < limit_raw - GAS_LIMIT_RESOLUTION {
        GAS_LIMIT_RESOLUTION as int
    } else if used_gas >= limit_raw {
        0
    } else {
        limit_raw - used_gas
    }
}

impl GasLimit {
    /// The externally visible gas ceiling in raw units.
    pub open spec fn raw_spec(self) -> int {
        self.multiplier * GAS_LIMIT_RESOLUTION
    }

    /// The raw gas ceiling, a multiple of the resolution.
    pub fn raw_amount(&self) -> (r: u64)
        requires
            self.raw_spec() <= u64::MAX,
        ensures
            r == self.raw_spec(),
    {
        self.multiplier * GAS_LIMIT_RESOLUTION
    }

    /// The refund owed for unused gas, capped at one resolution step.
    pub fn refund_amount(&self, used_gas: u64) -> (r: Amount)
        requires
            1 <= self.multiplier,
            self.raw_spec() <= u64::MAX,
        ensures
            r.micro == spec_refund(self.raw_spec(), used_gas),
    {
        let limit = self.raw_amount();
        proof {
            assert(GAS_LIMIT_RESOLUTION <= self.multiplier * GAS_LIMIT_RESOLUTION)
                by (nonlinear_arith)
                requires 1 <= self.multiplier;
        }
        let micro: u64 = if used_gas < limit - GAS_LIMIT_RESOLUTION {
            // refund only up to one resolution step
            GAS_LIMIT_RESOLUTION
        } else if used_gas >= limit {
            // the ceiling was underestimated: no refund
            0
        } else {
            limit - used_gas
        };
        Amount { micro }
    }
}

/// Round a raw gas request up to the next multiple of the resolution.
impl core::convert::From<u64> for GasLimit {
    fn from(amount: u64) -> (r: GasLimit) {
        proof {
            vstd::arithmetic::div_mod::lemma_fundamental_div_mod(
                amount as int, GAS_LIMIT_RESOLUTION as int);
            assert(GAS_LIMIT_RESOLUTION * (amount as int / GAS_LIMIT_RESOLUTION as int)
                <= amount);
        }
        if GAS_LIMIT_RESOLUTION * (amount / GAS_LIMIT_RESOLUTION) < amount {
            GasLimit { multiplier: amount / GAS_LIMIT_RESOLUTION + 1 }
        } else {
            GasLimit { multiplier: amount / GAS_LIMIT_RESOLUTION }
        }
    }
}

impl vstd::std_specs::convert::FromSpecImpl<u64> for GasLimit {
    open spec fn obeys_from_spec() -> bool {
        true
    }

    open spec fn from_spec(amount: u64) -> GasLimit {
        GasLimit { multiplier: gas_multiplier_of(amount) }
    }
}

/// Round a raw gas request, given as an amount, up to the next multiple of
/// the resolution.
impl core::convert::From<Amount> for GasLimit {
    fn from(amount: Amount) -> (r: GasLimit) {
        GasLimit::from(amount.micro)
    }
}

impl vstd::std_specs::convert::FromSpecImpl<Amount> for GasLimit {
    open spec fn obeys_from_spec() -> bool {
        true
    }

    open spec fn from_spec(amount: Amount) -> GasLimit {
        GasLimit { multiplier: gas_multiplier_of(amount.micro) }
    }
}

/// Law: quantizing a raw gas request rounds upward to the least multiple
/// of the resolution at or above the request; a request already on the
/// grid is kept exactly.
pub proof fn lemma_gas_limit_rounds_up(amount: u64)
    ensures
        ({
            let raw = gas_multiplier_of(amount) * (GAS_LIMIT_RESOLUTION as int);
            &&& raw % (GAS_LIMIT_RESOLUTION as int) == 0
            &&& raw >= amount
            &&& raw - amount < GAS_LIMIT_RESOLUTION
            &&& amount % GAS_LIMIT_RESOLUTION == 0 ==> raw == amount
        }),
{
    let r = GAS_LIMIT_RESOLUTION as int;
    let q = amount as int / r;
    let m = gas_multiplier_of(amount) as int;
    vstd::arithmetic::div_mod::lemma_fundamental_div_mod(amount as int, r);
    assert(amount as int == r * q + amount as int % r);
    if GAS_LIMIT_RESOLUTION * (amount / GAS_LIMIT_RESOLUTION) < amount {
        assert(m == q + 1);
        assert(m * r == r * q + r) by (nonlinear_arith)
            requires m == q + 1;
        assert((m * r) % r == 0) by (nonlinear_arith)
            requires m * r == r * q + r, r == GAS_LIMIT_RESOLUTION as int;
    } else {
        assert(m == q);
        assert(m * r == r * q);
        assert((m * r) % r == 0) by (nonlinear_arith)
            requires m * r == r * q, r == GAS_LIMIT_RESOLUTION as int;
    }
}

/// The unencrypted envelope around an encrypted inner transaction.
#[derive(Clone, Debug)]
pub struct WrapperTx {
    /// The fee to be paid for including the transaction.
    pub fee: Fee,
    /// Determines the implicit account of the fee payer.
    pub pk: PublicKey,
    /// The epoch the transaction is submitted in; it determines which
    /// decryption key will recover the payload.
    pub epoch: Epoch,
    /// Ceiling on the gas the inner transaction may use.
    pub gas_limit: GasLimit,
    /// A proof-of-work solution, allowing a zero-fee transaction where the
    /// network's configuration offers that; absent on networks that do not.
    pub pow_solution: Option<u64>,
}

/// The canonical serialized form of a wrapper envelope: every field in
/// order, integers as eight little-endian bytes, variable-length bytes
/// length-prefixed, the optional solution behind a presence byte.
pub open spec fn wrapper_bytes(w: WrapperTx) -> Seq<u8> {
    u64_le_bytes(w.fee.amount.micro) + u64_le_bytes(w.fee.token.bytes@.len() as u64)
        + w.fee.token.bytes@ + u64_le_bytes(w.pk.bytes@.len() as u64) + w.pk.bytes@
        + u64_le_bytes(w.epoch.0) + u64_le_bytes(w.gas_limit.multiplier)
        + (match w.pow_solution {
            Option::None => seq![0u8],
            Option::Some(s) => seq![1u8] + u64_le_bytes(s),
        })
}

impl WrapperTx {
    /// Assemble a wrapper from the metadata of a submission: the public
    /// key is derived from the submitter's keypair, every other field is
    /// stored verbatim. Nothing is encrypted here — encryption acts on the
    /// surrounding transaction's payload.
    pub fn new(
        fee: Fee,
        keypair: &SecretKey,
        epoch: Epoch,
        gas_limit: GasLimit,
        pow_solution: Option<u64>,
    ) -> (r: WrapperTx)
        ensures
            r.fee == fee,
            r.pk.bytes@ == keypair.bytes@,
            r.epoch == epoch,
            r.gas_limit == gas_limit,
            r.pow_solution == pow_solution,
    {
        WrapperTx { fee, pk: keypair.ref_to(), epoch, gas_limit, pow_solution }
    }

    /// The implicit account whose balance is debited for the fee: the
    /// address derived from the stored public key by hashing it.
    pub fn fee_payer(&self) -> (r: Address)
        ensures
            r.bytes@ == sha256_of(self.pk.bytes@),
    {
        Address { bytes: sha256(self.pk.bytes.as_slice()) }
    }

    /// The canonical serialized form of this envelope.
    pub fn serialize(&self) -> (r: Vec<u8>)
        ensures
            r@ == wrapper_bytes(*self),
    {
        let mut r: Vec<u8> = Vec::new();
        push_u64_le(&mut r, self.fee.amount.micro);
        push_u64_le(&mut r, self.fee.token.bytes.len() as u64);
        push_all(&mut r, self.fee.token.bytes.as_slice());
        push_u64_le(&mut r, self.pk.bytes.len() as u64);
        push_all(&mut r, self.pk.bytes.as_slice());
        push_u64_le(&mut r, self.epoch.0);
        push_u64_le(&mut r, self.gas_limit.multiplier);
        match &self.pow_solution {
            Option::None => {
                r.push(0u8);
            },
            Option::Some(s) => {
                r.push(1u8);
                push_u64_le(&mut r, *s);
            },
        }
        assert(r@ =~= wrapper_bytes(*self));
        r
    }

    /// Feed the canonical serialized form of this envelope into a running
    /// SHA-256 digest, as one link of the commitment over the whole signed
    /// header; the same digest is handed back for chaining.
    pub fn hash<'a>(&self, hasher: &'a mut sha2::Sha256) -> (ret: &'a mut sha2::Sha256)
        ensures
            sha256_fed(*ret) == sha256_fed(*old(hasher)) + wrapper_bytes(*self),
            sha256_fed(*final(hasher)) == sha256_fed(*final(ret)),
    {
        let bytes = self.serialize();
        crate::crypto::sha256_update(hasher, bytes.as_slice());
        hasher
    }
}

} // verus!

