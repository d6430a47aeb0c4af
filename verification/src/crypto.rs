//! Cryptographic primitives of the envelope protocol: SHA-256 digests (the
//! commitment to a hidden payload and the hash of a signed header), the
//! keystream cipher that keeps an inner transaction confidential until its
//! epoch key is revealed, and the keyed-digest authenticator over a header.
//!
//! How an epoch's key pair is produced is not this crate's concern: a key
//! is an opaque sequence of bytes supplied by the caller, and a decryption
//! key matches an encryption key exactly when their bytes agree. Likewise
//! the authenticator is symmetric — the verification key carries the same
//! material as the signing key — standing in, behind the same interface,
//! for whatever scheme the surrounding node deploys.

use vstd::prelude::*;

use sha2::{Digest, Sha256};

use crate::codec::{push_all, u64_le_bytes};

verus! {

#[verifier::external_type_specification]
#[verifier::external_body]
pub struct ExSha256(sha2::Sha256);

/// The SHA-256 digest of a byte sequence. The digest is a function of the
/// input bytes alone; nothing further is assumed of it.
pub uninterp spec fn sha256_of(bytes: Seq<u8>) -> Seq<u8>;

/// The bytes a running SHA-256 hasher has been fed so far.
pub uninterp spec fn sha256_fed(h: sha2::Sha256) -> Seq<u8>;

/// Relies on sha2's `Digest::digest` for `Sha256`: the one-shot SHA-256
/// digest of the input, 32 bytes long, depending on the input alone.
#[verifier::external_body]
pub fn sha256(bytes: &[u8]) -> (r: Vec<u8>)
    ensures
        r@ == sha256_of(bytes@),
        r@.len() == 32,
{
    Sha256::digest(bytes).to_vec()
}

/// Relies on sha2's `Digest::new` for `Sha256`: a fresh hasher has been
/// fed nothing.
#[verifier::external_body]
pub fn sha256_new() -> (h: Sha256)
    ensures
        sha256_fed(h) == Seq::<u8>::empty(),
{
    Sha256::new()
}

/// Relies on sha2's `Digest::update` for `Sha256`: feeding a hasher
/// appends the bytes to what it has been fed.
#[verifier::external_body]
pub fn sha256_update(h: &mut Sha256, bytes: &[u8])
    ensures
        sha256_fed(*final(h)) == sha256_fed(*old(h)) + bytes@,
{
    h.update(bytes);
}

/// Relies on sha2's `Digest::finalize` for `Sha256`: the digest of
/// everything the hasher was fed, equal to the one-shot digest of the same
/// bytes.
#[verifier::external_body]
pub fn sha256_finalize(h: Sha256) -> (r: Vec<u8>)
    ensures
        r@ == sha256_of(sha256_fed(h)),
        r@.len() == 32,
{
    h.finalize().to_vec()
}

/// A signing key: opaque byte material held by the transaction submitter.
#[derive(Clone, Debug)]
pub struct SecretKey {
    pub bytes: Vec<u8>,
}

/// The verification key handed out for a signing key. In this crate's
/// keyed-digest authenticator it mirrors the signing key's material.
#[derive(Clone, Debug)]
pub struct PublicKey {
    pub bytes: Vec<u8>,
}

impl SecretKey {
    /// The verification key belonging to this signing key.
    pub fn ref_to(&self) -> (pk: PublicKey)
        ensures
            pk.bytes@ == self.bytes@,
    {
        PublicKey { bytes: crate::codec::clone_bytes(&self.bytes) }
    }
}

/// The public key a payload is encrypted under, as supplied for the
/// submission epoch: opaque byte material.
#[derive(Clone, Debug)]
pub struct EncryptionKey {
    pub bytes: Vec<u8>,
}

/// The decryption key revealed once the epoch advances: opaque byte
/// material. It recovers a payload exactly when its bytes agree with the
/// encryption key's.
#[derive(Clone, Debug)]
pub struct DecryptionKey {
    pub bytes: Vec<u8>,
}

impl core::default::Default for EncryptionKey {
    /// The scheme's distinguished key of empty material.
    fn default() -> (r: Self)
        ensures
            r.bytes@ == Seq::<u8>::empty(),
    {
        EncryptionKey { bytes: Vec::new() }
    }
}

impl core::default::Default for DecryptionKey {
    /// The decryption key matching the default encryption key.
    fn default() -> (r: Self)
        ensures
            r.bytes@ == Seq::<u8>::empty(),
    {
        DecryptionKey { bytes: Vec::new() }
    }
}

/// One 32-byte block of the keystream: the digest of the key material
/// followed by the block counter.
pub open spec fn keystream_block(key: Seq<u8>, i: int) -> Seq<u8> {
    sha256_of(key + u64_le_bytes(i as u64))
}

/// Byte `j` of the keystream derived from `key`.
pub open spec fn keystream_byte(key: Seq<u8>, j: int) -> u8 {
    keystream_block(key, j / 32)[j % 32]
}

/// The first `n` bytes of the keystream derived from `key`.
pub open spec fn keystream(key: Seq<u8>, n: int) -> Seq<u8> {
    Seq::new(n as nat, |j: int| keystream_byte(key, j))
}

/// The byte-wise exclusive or of two equally long sequences.
pub open spec fn xor_seq(a: Seq<u8>, b: Seq<u8>) -> Seq<u8>
    recommends
        a.len() == b.len(),
{
    Seq::new(a.len(), |i: int| a[i] ^ b[i])
}

/// Masking twice with the same sequence gives the original back.
pub proof fn lemma_xor_involutive(a: Seq<u8>, k: Seq<u8>)
    requires
        a.len() == k.len(),
    ensures
        xor_seq(xor_seq(a, k), k) == a,
{
    assert forall|i: int| 0 <= i < a.len() implies xor_seq(xor_seq(a, k), k)[i] == a[i] by {
        let x = a[i];
        let y = k[i];
        assert((x ^ y) ^ y == x) by (bit_vector);
    }
    assert(xor_seq(xor_seq(a, k), k) =~= a);
}

/// Generate the first `n` keystream bytes for `key`, by hashing the key
/// beside a running block counter.
pub fn keystream_bytes(key: &Vec<u8>, n: usize) -> (r: Vec<u8>)
    ensures
        r@ == keystream(key@, n as int),
{
    let mut r: Vec<u8> = Vec::new();
    let mut i: u64 = 0;
    while r.len() < n
        invariant
            r@.len() <= n,
            r@.len() == 32 * i || r@.len() == n,
            forall|j: int| 0 <= j < r@.len() ==> r@[j] == keystream_byte(key@, j),
        decreases n - r@.len(),
    {
        let mut buf: Vec<u8> = Vec::new();
        push_all(&mut buf, key.as_slice());
        crate::codec::push_u64_le(&mut buf, i);
        let block = sha256(buf.as_slice());
        assert(block@ == keystream_block(key@, i as int));
        let mut k: usize = 0;
        while k < 32 && r.len() < n
            invariant
                k <= 32,
                block@ == keystream_block(key@, i as int),
                block@.len() == 32,
                r@.len() <= n,
                r@.len() == 32 * i + k,
                forall|j: int| 0 <= j < r@.len() ==> r@[j] == keystream_byte(key@, j),
            decreases 32 - k,
        {
            let ghost j = r@.len() as int;
            proof {
                vstd::arithmetic::div_mod::lemma_fundamental_div_mod_converse(
                    j, 32, i as int, k as int);
            }
            r.push(block[k]);
            assert(r@[j] == keystream_byte(key@, j));
            k = k + 1;
        }
        i = i + 1;
    }
    assert(r@ =~= keystream(key@, n as int));
    r
}

/// The byte-wise exclusive or of two equally long byte vectors.
pub fn xor_bytes(a: &Vec<u8>, b: &Vec<u8>) -> (r: Vec<u8>)
    requires
        a@.len() == b@.len(),
    ensures
        r@ == xor_seq(a@, b@),
{
    let mut r: Vec<u8> = Vec::new();
    let mut k: usize = 0;
    let n = a.len();
    while k < n
        invariant
            k <= n,
            n == a@.len() == b@.len(),
            r@.len() == k,
            forall|i: int| 0 <= i < k ==> r@[i] == (a@[i] ^ b@[i]),
        decreases n - k,
    {
        r.push(a[k] ^ b[k]);
        k = k + 1;
    }
    assert(r@ =~= xor_seq(a@, b@));
    r
}

/// The authenticator over a digest: the keyed hash of the key material
/// followed by the digest.
pub open spec fn signature_of(key: Seq<u8>, digest: Seq<u8>) -> Seq<u8> {
    sha256_of(key + digest)
}

/// Produce the authenticator of `digest` under `key`.
pub fn sign_digest(key: &SecretKey, digest: &Vec<u8>) -> (r: Vec<u8>)
    ensures
        r@ == signature_of(key.bytes@, digest@),
{
    let mut buf: Vec<u8> = Vec::new();
    push_all(&mut buf, key.bytes.as_slice());
    push_all(&mut buf, digest.as_slice());
    sha256(buf.as_slice())
}

} // verus!
