use admission_core::crypto::{DecryptionKey, EncryptionKey, SecretKey};
use admission_core::tx::{Signature, Tx, TxError, TxType};
use admission_core::wrapper::{Address, Amount, Epoch, Fee, GasLimit, WrapperTx, WrapperTxErr};

fn gen_keypair() -> SecretKey {
    SecretKey { bytes: vec![7u8; 32] }
}

fn nam() -> Address {
    Address { bytes: b"nam".to_vec() }
}

fn new_wrapper_tx(keypair: &SecretKey) -> Tx {
    Tx::new(TxType::Wrapper(Box::new(WrapperTx::new(
        Fee { amount: Amount::from(10u64), token: nam() },
        keypair,
        Epoch(0),
        GasLimit::from(0u64),
        None,
    ))))
}

/// Feeding a transaction in and decrypting it again gives back what was
/// started with.
#[test]
fn test_encryption_round_trip() {
    let keypair = gen_keypair();
    let mut wrapper = new_wrapper_tx(&keypair);
    wrapper.set_code("wasm code".as_bytes().to_owned());
    wrapper.set_data("transaction data".as_bytes().to_owned());
    let header_hash = wrapper.header_hash();
    wrapper.add_signature(Signature::new(&header_hash, &keypair));
    let mut encrypted_tx = wrapper.clone();
    encrypted_tx.encrypt(&EncryptionKey::default());
    assert!(encrypted_tx.validate_ciphertext());
    let privkey = DecryptionKey::default();
    encrypted_tx.decrypt(&privkey).expect("Test failed");
    assert_eq!(wrapper.data(), encrypted_tx.data());
    assert_eq!(wrapper.code(), encrypted_tx.code());
}

/// Decrypting a transaction whose payload does not match the commitment
/// returns the commitment-mismatch error.
#[test]
fn test_decryption_invalid_hash() {
    let keypair = gen_keypair();
    let mut wrapper = new_wrapper_tx(&keypair);
    wrapper.set_code("wasm code".as_bytes().to_owned());
    wrapper.set_data("transaction data".as_bytes().to_owned());
    // give an incorrect commitment to the decrypted contents of the tx
    wrapper.set_code_sechash(vec![0u8; 32]);
    wrapper.set_data_sechash(vec![0u8; 32]);
    let header_hash = wrapper.header_hash();
    wrapper.add_signature(Signature::new(&header_hash, &keypair));
    wrapper.encrypt(&EncryptionKey::default());
    assert!(wrapper.validate_ciphertext());
    let privkey = DecryptionKey::default();
    let err = wrapper.decrypt(&privkey).expect_err("Test failed");
    assert!(matches!(err, WrapperTxErr::DecryptedHash));
}

/// Even when the encrypted payload and the commitment to its contents are
/// both updated, the fraud is detected through the signature.
#[test]
fn test_malleability_attack_detection() {
    let keypair = gen_keypair();
    // the signed tx
    let mut tx = new_wrapper_tx(&keypair);
    tx.set_code("wasm code".as_bytes().to_owned());
    tx.set_data("transaction data".as_bytes().to_owned());
    let header_hash = tx.header_hash();
    tx.add_signature(Signature::new(&header_hash, &keypair));

    // we now try to alter the inner tx maliciously: replace it and change
    // the commitment appropriately, without re-signing
    let malicious = "Give me all the money".as_bytes().to_owned();
    tx.set_data(malicious.clone());
    tx.encrypt(&EncryptionKey::default());

    // ciphertext validity still passes, and decryption still succeeds
    assert!(tx.validate_ciphertext());
    tx.decrypt(&DecryptionKey::default()).expect("Test failed");
    assert_eq!(tx.data(), Some(malicious));

    // but the signature is not valid against the altered header
    let altered_header_hash = tx.header_hash();
    tx.verify_signature(&keypair.ref_to(), &altered_header_hash)
        .expect_err("Test failed");
    let err = tx.validate_header().expect_err("Test failed");
    assert!(matches!(err, TxError::SigError));
}

/// The assembled wrapper stores the metadata verbatim and derives the
/// public key from the keypair.
#[test]
fn test_wrapper_new_stores_fields() {
    let keypair = gen_keypair();
    let w = WrapperTx::new(
        Fee { amount: Amount::from(10u64), token: nam() },
        &keypair,
        Epoch(3),
        GasLimit::from(1u64),
        Some(42),
    );
    assert_eq!(w.fee.amount, Amount::from(10u64));
    assert_eq!(w.fee.token, nam());
    assert_eq!(w.pk.bytes, keypair.ref_to().bytes);
    assert_eq!(w.epoch, Epoch(3));
    assert_eq!(w.gas_limit.multiplier, 1);
    assert_eq!(w.pow_solution, Some(42));
}

/// The fee payer's address is the digest of the signer's public key, not
/// the key itself.
#[test]
fn test_fee_payer_address() {
    let keypair = gen_keypair();
    let w = WrapperTx::new(
        Fee { amount: Amount::from(10u64), token: nam() },
        &keypair,
        Epoch(0),
        GasLimit::from(0u64),
        None,
    );
    let addr = w.fee_payer();
    assert_eq!(addr.bytes, admission_core::crypto::sha256(&w.pk.bytes));
    assert_ne!(addr.bytes, w.pk.bytes);
    assert_eq!(addr.bytes.len(), 32);
}

/// Chaining the wrapper into a running digest matches hashing its
/// canonical serialized form in one shot.
#[test]
fn test_wrapper_hash_chaining() {
    let keypair = gen_keypair();
    let w = WrapperTx::new(
        Fee { amount: Amount::from(10u64), token: nam() },
        &keypair,
        Epoch(5),
        GasLimit::from(2_000_000u64),
        None,
    );
    let mut hasher = admission_core::crypto::sha256_new();
    w.hash(&mut hasher);
    let chained = admission_core::crypto::sha256_finalize(hasher);
    let one_shot = admission_core::crypto::sha256(&w.serialize());
    assert_eq!(chained, one_shot);

    // chaining through the returned digest handle
    let other = WrapperTx::new(
        Fee { amount: Amount::from(11u64), token: nam() },
        &keypair,
        Epoch(6),
        GasLimit::from(1u64),
        Some(5),
    );
    let mut hasher = admission_core::crypto::sha256_new();
    other.hash(w.hash(&mut hasher));
    let both = admission_core::crypto::sha256_finalize(hasher);
    let mut bytes = w.serialize();
    bytes.extend_from_slice(&other.serialize());
    assert_eq!(both, admission_core::crypto::sha256(&bytes));
    assert_ne!(both, one_shot);
}

/// Signing with a keypair whose public key differs from the wrapper's is
/// refused; the matching keypair signs and the header then validates.
#[test]
fn test_sign_checks_keypair() {
    let keypair = gen_keypair();
    let stranger = SecretKey { bytes: vec![9u8; 32] };
    let mut tx = new_wrapper_tx(&keypair);
    tx.set_data(b"payload".to_vec());
    let err = tx.sign(&stranger).expect_err("Test failed");
    assert!(matches!(err, WrapperTxErr::InvalidKeyPair));
    tx.sign(&keypair).expect("Test failed");
    tx.validate_header().expect("Test failed");
}

/// A transaction without a wrapper envelope cannot be decrypted.
#[test]
fn test_decrypt_without_wrapper() {
    let mut tx = Tx::new(TxType::Raw);
    tx.set_data(b"some data".to_vec());
    tx.encrypt(&EncryptionKey::default());
    let err = tx.decrypt(&DecryptionKey::default()).expect_err("Test failed");
    assert!(matches!(err, WrapperTxErr::InvalidWrapperTx));
}

/// A wrapper transaction whose payload was never encrypted is not a valid
/// decryption subject.
#[test]
fn test_decrypt_unencrypted_payload() {
    let keypair = gen_keypair();
    let mut tx = new_wrapper_tx(&keypair);
    tx.set_data(b"some data".to_vec());
    let err = tx.decrypt(&DecryptionKey::default()).expect_err("Test failed");
    assert!(matches!(err, WrapperTxErr::InvalidTx));
}

/// Corrupting the ciphertext without touching the commitment surfaces as
/// the commitment-mismatch error, not as a parse error.
#[test]
fn test_corrupted_ciphertext_fails_commitment() {
    let keypair = gen_keypair();
    let mut tx = new_wrapper_tx(&keypair);
    tx.set_code(b"wasm code".to_vec());
    tx.set_data(b"transaction data".to_vec());
    tx.encrypt(&EncryptionKey::default());
    match &mut tx.payload {
        admission_core::tx::Payload::Encrypted { ciphertext } => {
            // flip a byte inside the code section, leaving the frame intact
            ciphertext[10] ^= 0xff;
        }
        admission_core::tx::Payload::Plain { .. } => panic!("Test failed"),
    }
    let err = tx.decrypt(&DecryptionKey::default()).expect_err("Test failed");
    assert!(matches!(err, WrapperTxErr::DecryptedHash));
}

/// Decrypting under key material that differs from the encryption key's
/// never recovers the payload.
#[test]
fn test_wrong_key_fails_decryption() {
    let keypair = gen_keypair();
    let mut tx = new_wrapper_tx(&keypair);
    tx.set_code(b"wasm code".to_vec());
    tx.set_data(b"transaction data".to_vec());
    tx.encrypt(&EncryptionKey { bytes: b"epoch seven key".to_vec() });
    assert!(tx.decrypt(&DecryptionKey { bytes: b"epoch eight key".to_vec() }).is_err());
    tx.decrypt(&DecryptionKey { bytes: b"epoch seven key".to_vec() }).expect("Test failed");
    assert_eq!(tx.code(), Some(b"wasm code".to_vec()));
    assert_eq!(tx.data(), Some(b"transaction data".to_vec()));
}
