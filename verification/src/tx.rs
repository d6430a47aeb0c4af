//! The outer transaction: an optional wrapper envelope, commitments to the
//! inner transaction's code and data sections, the payload itself (in the
//! clear before encryption and after decryption, ciphertext in between),
//! and the submitter's signature over the header.
//!
//! A consumer must check both the commitment (which defeats silent
//! corruption of the ciphertext) and the signature over the header (which
//! defeats substitution of the payload together with its commitment):
//! either check alone is insufficient.

use vstd::prelude::*;

use crate::codec::{bytes_eq, clone_bytes, encode_payload, encode_payload_vec, parse_payload,
    parse_payload_vec, push_all};
use crate::crypto::{keystream, keystream_bytes, sha256, sha256_of, signature_of, xor_bytes,
    xor_seq, DecryptionKey, EncryptionKey, PublicKey, SecretKey};
use crate::wrapper::{wrapper_bytes, WrapperTx, WrapperTxErr};

verus! {

/// What kind of transaction the header announces.
#[derive(Clone, Debug)]
pub enum TxType {
    /// A transaction carrying a wrapper envelope around an encrypted
    /// payload.
    Wrapper(Box<WrapperTx>),
    /// A bare transaction without an envelope.
    Raw,
}

/// The payload sections of a transaction.
#[derive(Clone, Debug)]
pub enum Payload {
    /// The sections in the clear.
    Plain {
        /// The code section.
        code: Vec<u8>,
        /// The data section.
        data: Vec<u8>,
    },
    /// The sections hidden as one ciphertext.
    Encrypted {
        /// The framed sections masked with the epoch key's keystream.
        ciphertext: Vec<u8>,
    },
}

/// A signature section: the authenticator over the header's digest.
#[derive(Clone, Debug)]
pub struct Signature {
    /// The authenticator bytes.
    pub sig: Vec<u8>,
}

impl Signature {
    /// Authenticate a header digest with the submitter's keypair.
    pub fn new(digest: &Vec<u8>, keypair: &SecretKey) -> (r: Signature)
        ensures
            r.sig@ == signature_of(keypair.bytes@, digest@),
    {
        Signature { sig: crate::crypto::sign_digest(keypair, digest) }
    }
}

/// Errors raised by header validation.
#[derive(Clone, Copy, Debug, PartialEq, Eq, Structural)]
pub enum TxError {
    /// The header's signature is missing or does not verify.
    SigError,
}

/// An outer transaction.
#[derive(Clone, Debug)]
pub struct Tx {
    /// What the header announces, including the wrapper envelope if any.
    pub tx_type: TxType,
    /// Commitment to the code section's plaintext.
    pub code_sechash: Vec<u8>,
    /// Commitment to the data section's plaintext.
    pub data_sechash: Vec<u8>,
    /// The payload sections.
    pub payload: Payload,
    /// The signature over the header, once attached.
    pub signature: Option<Signature>,
}

/// The signed header: the announced type with its envelope, followed by
/// the two commitments. The header covers the commitments but never the
/// ciphertext bytes themselves.
pub open spec fn header_bytes(tx: Tx) -> Seq<u8> {
    (match tx.tx_type {
        TxType::Wrapper(w) => seq![1u8] + wrapper_bytes(*w),
        TxType::Raw => seq![0u8],
    }) + tx.code_sechash@ + tx.data_sechash@
}

/// Framed sections masked with the keystream of `key`.
pub open spec fn encrypt_bytes(pt: Seq<u8>, key: Seq<u8>) -> Seq<u8> {
    xor_seq(pt, keystream(key, pt.len() as int))
}

/// What decrypting `tx` under the key material `key` yields: the two
/// recovered sections, or the exact error owed. A transaction without a
/// wrapper envelope is refused outright; an unencrypted or unparseable
/// payload is not a valid inner transaction; recovered sections whose
/// digests differ from the commitments are a commitment mismatch.
pub open spec fn decrypt_outcome(tx: Tx, key: Seq<u8>) -> Result<(Seq<u8>, Seq<u8>), WrapperTxErr> {
    if !(tx.tx_type is Wrapper) {
        Err(WrapperTxErr::InvalidWrapperTx)
    } else {
        match tx.payload {
            Payload::Plain { .. } => Err(WrapperTxErr::InvalidTx),
            Payload::Encrypted { ciphertext } => {
                let pt = xor_seq(ciphertext@, keystream(key, ciphertext@.len() as int));
                match parse_payload(pt) {
                    Option::None => Err(WrapperTxErr::InvalidTx),
                    Option::Some(cd) => {
                        if sha256_of(cd.0) == tx.code_sechash@ && sha256_of(cd.1)
                            == tx.data_sechash@ {
                            Ok(cd)
                        } else {
                            Err(WrapperTxErr::DecryptedHash)
                        }
                    },
                }
            },
        }
    }
}

impl Tx {
    /// A fresh transaction of the announced type: empty sections in the
    /// clear, commitments to the empty sections, no signature yet.
    pub fn new(tx_type: TxType) -> (r: Tx)
        ensures
            r.tx_type == tx_type,
            (r.payload matches Payload::Plain { code, data } && code@ == Seq::<u8>::empty()
                && data@ == Seq::<u8>::empty()),
            r.code_sechash@ == sha256_of(Seq::<u8>::empty()),
            r.data_sechash@ == sha256_of(Seq::<u8>::empty()),
            r.signature is None,
    {
        let empty: Vec<u8> = Vec::new();
        let code_sechash = sha256(empty.as_slice());
        let data_sechash = sha256(empty.as_slice());
        Tx {
            tx_type,
            code_sechash,
            data_sechash,
            payload: Payload::Plain { code: Vec::new(), data: Vec::new() },
            signature: None,
        }
    }

    /// Replace the code section and commit to it: the commitment becomes
    /// the digest of the new code.
    pub fn set_code(&mut self, code: Vec<u8>)
        requires
            old(self).payload is Plain,
        ensures
            final(self).tx_type == old(self).tx_type,
            final(self).data_sechash == old(self).data_sechash,
            final(self).signature == old(self).signature,
            final(self).code_sechash@ == sha256_of(code@),
            (old(self).payload matches Payload::Plain { data, .. } ==> (final(self).payload
                matches Payload::Plain { code: c2, data: d2 } && c2@ == code@ && d2@ == data@)),
    {
        let data = match &self.payload {
            Payload::Plain { data, .. } => clone_bytes(data),
            Payload::Encrypted { .. } => vstd::pervasive::unreached(),
        };
        self.code_sechash = sha256(code.as_slice());
        self.payload = Payload::Plain { code, data };
    }

    /// Replace the data section and commit to it: the commitment becomes
    /// the digest of the new data.
    pub fn set_data(&mut self, data: Vec<u8>)
        requires
            old(self).payload is Plain,
        ensures
            final(self).tx_type == old(self).tx_type,
            final(self).code_sechash == old(self).code_sechash,
            final(self).signature == old(self).signature,
            final(self).data_sechash@ == sha256_of(data@),
            (old(self).payload matches Payload::Plain { code, .. } ==> (final(self).payload
                matches Payload::Plain { code: c2, data: d2 } && c2@ == code@ && d2@ == data@)),
    {
        let code = match &self.payload {
            Payload::Plain { code, .. } => clone_bytes(code),
            Payload::Encrypted { .. } => vstd::pervasive::unreached(),
        };
        self.data_sechash = sha256(data.as_slice());
        self.payload = Payload::Plain { code, data };
    }

    /// Overwrite the commitment to the code section.
    pub fn set_code_sechash(&mut self, hash: Vec<u8>)
        ensures
            final(self).code_sechash@ == hash@,
            final(self).tx_type == old(self).tx_type,
            final(self).data_sechash == old(self).data_sechash,
            final(self).payload == old(self).payload,
            final(self).signature == old(self).signature,
    {
        self.code_sechash = hash;
    }

    /// Overwrite the commitment to the data section.
    pub fn set_data_sechash(&mut self, hash: Vec<u8>)
        ensures
            final(self).data_sechash@ == hash@,
            final(self).tx_type == old(self).tx_type,
            final(self).code_sechash == old(self).code_sechash,
            final(self).payload == old(self).payload,
            final(self).signature == old(self).signature,
    {
        self.data_sechash = hash;
    }

    /// The code section, when the payload is in the clear.
    pub fn code(&self) -> (r: Option<Vec<u8>>)
        ensures
            match self.payload {
                Payload::Plain { code, .. } => (r matches Some(v) && v@ == code@),
                Payload::Encrypted { .. } => r is None,
            },
    {
        match &self.payload {
            Payload::Plain { code, .. } => Some(clone_bytes(code)),
            Payload::Encrypted { .. } => None,
        }
    }

    /// The data section, when the payload is in the clear.
    pub fn data(&self) -> (r: Option<Vec<u8>>)
        ensures
            match self.payload {
                Payload::Plain { data, .. } => (r matches Some(v) && v@ == data@),
                Payload::Encrypted { .. } => r is None,
            },
    {
        match &self.payload {
            Payload::Plain { data, .. } => Some(clone_bytes(data)),
            Payload::Encrypted { .. } => None,
        }
    }

    /// The digest of the signed header.
    pub fn header_hash(&self) -> (r: Vec<u8>)
        ensures
            r@ == sha256_of(header_bytes(*self)),
            r@.len() == 32,
    {
        let mut buf: Vec<u8> = Vec::new();
        match &self.tx_type {
            TxType::Wrapper(w) => {
                buf.push(1u8);
                let wb = w.serialize();
                push_all(&mut buf, wb.as_slice());
            },
            TxType::Raw => {
                buf.push(0u8);
            },
        }
        push_all(&mut buf, self.code_sechash.as_slice());
        push_all(&mut buf, self.data_sechash.as_slice());
        assert(buf@ =~= header_bytes(*self));
        sha256(buf.as_slice())
    }

    /// Attach a signature section.
    pub fn add_signature(&mut self, sig: Signature)
        ensures
            final(self).signature == Some(sig),
            final(self).tx_type == old(self).tx_type,
            final(self).code_sechash == old(self).code_sechash,
            final(self).data_sechash == old(self).data_sechash,
            final(self).payload == old(self).payload,
    {
        self.signature = Some(sig);
    }

    /// Hide the payload: frame the sections and mask them with the
    /// keystream of the epoch's encryption key. The commitments and the
    /// header are untouched — the header never covers the ciphertext.
    pub fn encrypt(&mut self, key: &EncryptionKey)
        requires
            old(self).payload is Plain,
        ensures
            final(self).tx_type == old(self).tx_type,
            final(self).code_sechash == old(self).code_sechash,
            final(self).data_sechash == old(self).data_sechash,
            final(self).signature == old(self).signature,
            (old(self).payload matches Payload::Plain { code, data } ==> (final(self).payload
                matches Payload::Encrypted { ciphertext } && ciphertext@ == encrypt_bytes(
                encode_payload(code@, data@), key.bytes@))),
    {
        let pt = match &self.payload {
            Payload::Plain { code, data } => encode_payload_vec(code, data),
            Payload::Encrypted { .. } => vstd::pervasive::unreached(),
        };
        let ks = keystream_bytes(&key.bytes, pt.len());
        let ciphertext = xor_bytes(&pt, &ks);
        self.payload = Payload::Encrypted { ciphertext };
    }

    /// Whether the transaction carries a ciphertext payload of at least
    /// the frame's minimum size.
    pub fn validate_ciphertext(&self) -> (r: bool)
        ensures
            r == (self.payload matches Payload::Encrypted { ciphertext } && ciphertext@.len()
                >= 16),
    {
        match &self.payload {
            Payload::Encrypted { ciphertext } => ciphertext.len() >= 16,
            Payload::Plain { .. } => false,
        }
    }

    /// Recover the payload with the epoch's decryption key. Succeeds, and
    /// puts the recovered sections back in the clear, exactly when the
    /// ciphertext unmasks to a well-formed frame whose sections match the
    /// stored commitments; otherwise the transaction is left unchanged and
    /// the exact error of `decrypt_outcome` is returned.
    pub fn decrypt(&mut self, key: &DecryptionKey) -> (r: Result<(), WrapperTxErr>)
        ensures
            (decrypt_outcome(*old(self), key.bytes@) matches Ok(cd) ==> {
                &&& r is Ok
                &&& final(self).tx_type == old(self).tx_type
                &&& final(self).code_sechash == old(self).code_sechash
                &&& final(self).data_sechash == old(self).data_sechash
                &&& final(self).signature == old(self).signature
                &&& (final(self).payload matches Payload::Plain { code, data } && code@ == cd.0
                    && data@ == cd.1)
            }),
            (decrypt_outcome(*old(self), key.bytes@) matches Err(e) ==> r
                == Err::<(), WrapperTxErr>(e) && *final(self) == *old(self)),
    {
        match &self.tx_type {
            TxType::Wrapper(_) => {},
            TxType::Raw => {
                return Err(WrapperTxErr::InvalidWrapperTx);
            },
        }
        let ct = match &self.payload {
            Payload::Plain { .. } => {
                return Err(WrapperTxErr::InvalidTx);
            },
            Payload::Encrypted { ciphertext } => clone_bytes(ciphertext),
        };
        let ks = keystream_bytes(&key.bytes, ct.len());
        let pt = xor_bytes(&ct, &ks);
        match parse_payload_vec(&pt) {
            None => Err(WrapperTxErr::InvalidTx),
            Some((code, data)) => {
                let ch = sha256(code.as_slice());
                let dh = sha256(data.as_slice());
                if bytes_eq(&ch, &self.code_sechash) && bytes_eq(&dh, &self.data_sechash) {
                    self.payload = Payload::Plain { code, data };
                    Ok(())
                } else {
                    Err(WrapperTxErr::DecryptedHash)
                }
            },
        }
    }

    /// Sign the header with the submitter's keypair and attach the
    /// signature. The keypair is accepted only when its public key is the
    /// one named in the wrapper envelope; otherwise it is refused as a
    /// client-side misuse and the transaction is left unchanged.
    pub fn sign(&mut self, keypair: &SecretKey) -> (r: Result<(), WrapperTxErr>)
        ensures
            ((old(self).tx_type matches TxType::Wrapper(w) && w.pk.bytes@ == keypair.bytes@)
                ==> {
                &&& r is Ok
                &&& (final(self).signature matches Some(s) && s.sig@ == signature_of(
                    keypair.bytes@, sha256_of(header_bytes(*old(self)))))
                &&& final(self).tx_type == old(self).tx_type
                &&& final(self).code_sechash == old(self).code_sechash
                &&& final(self).data_sechash == old(self).data_sechash
                &&& final(self).payload == old(self).payload
            }),
            (!(old(self).tx_type matches TxType::Wrapper(w) && w.pk.bytes@ == keypair.bytes@)
                ==> r == Err::<(), WrapperTxErr>(WrapperTxErr::InvalidKeyPair) && *final(self)
                == *old(self)),
    {
        let ok = match &self.tx_type {
            TxType::Wrapper(w) => bytes_eq(&w.pk.bytes, &keypair.bytes),
            TxType::Raw => false,
        };
        if !ok {
            return Err(WrapperTxErr::InvalidKeyPair);
        }
        let hh = self.header_hash();
        let sig = Signature::new(&hh, keypair);
        self.add_signature(sig);
        Ok(())
    }

    /// Whether the attached signature authenticates `digest` under `pk`:
    /// it does exactly when it is present and equals the keyed digest of
    /// `digest` under the key.
    pub fn verify_signature(&self, pk: &PublicKey, digest: &Vec<u8>) -> (r: Result<(), TxError>)
        ensures
            r is Ok <==> (self.signature matches Some(s) && s.sig@ == signature_of(
                pk.bytes@, digest@)),
            r is Err ==> r == Err::<(), TxError>(TxError::SigError),
    {
        match &self.signature {
            Option::Some(s) => {
                let mut buf: Vec<u8> = Vec::new();
                push_all(&mut buf, pk.bytes.as_slice());
                push_all(&mut buf, digest.as_slice());
                let expect = sha256(buf.as_slice());
                if bytes_eq(&expect, &s.sig) {
                    Ok(())
                } else {
                    Err(TxError::SigError)
                }
            },
            Option::None => Err(TxError::SigError),
        }
    }

    /// Whether the transaction's own header is validly signed: it is
    /// exactly when a wrapper envelope is present and the attached
    /// signature authenticates the header's digest under the envelope's
    /// public key.
    pub fn validate_header(&self) -> (r: Result<(), TxError>)
        ensures
            r is Ok <==> (self.tx_type matches TxType::Wrapper(w) && self.signature matches
                Some(s) && s.sig@ == signature_of(w.pk.bytes@, sha256_of(header_bytes(*self)))),
            r is Err ==> r == Err::<(), TxError>(TxError::SigError),
    {
        match &self.tx_type {
            TxType::Wrapper(w) => {
                let hh = self.header_hash();
                self.verify_signature(&w.pk, &hh)
            },
            TxType::Raw => Err(TxError::SigError),
        }
    }
}

/// Law: the encryption round trip. A transaction that holds the
/// ciphertext of two framed sections under some key material, with the
/// sections' own digests as its commitments, decrypts under the matching
/// key to exactly those sections.
pub proof fn lemma_encryption_round_trip(tx: Tx, code: Seq<u8>, data: Seq<u8>, key: Seq<u8>)
    requires
        code.len() <= u64::MAX,
        data.len() <= u64::MAX,
        tx.tx_type is Wrapper,
        (tx.payload matches Payload::Encrypted { ciphertext } && ciphertext@ == encrypt_bytes(
            encode_payload(code, data), key)),
        tx.code_sechash@ == sha256_of(code),
        tx.data_sechash@ == sha256_of(data),
    ensures
        decrypt_outcome(tx, key) == Ok::<(Seq<u8>, Seq<u8>), WrapperTxErr>((code, data)),
{
    let pt = encode_payload(code, data);
    let ks = keystream(key, pt.len() as int);
    assert(encrypt_bytes(pt, key).len() == pt.len());
    crate::crypto::lemma_xor_involutive(pt, ks);
    crate::codec::lemma_payload_roundtrip(code, data);
}

} // verus!
