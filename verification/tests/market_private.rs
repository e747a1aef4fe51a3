use chained_universe::market::{market_fee, settle_sale, MARKET_FEE_BPS};
use chained_universe::private_state::{
    validate_encrypted_private_state, validate_private_state_digest, validate_private_state_seal,
    EncryptedPrivateStateBlob, PrivateCommitments, PrivateStateDigest, PrivateStateSeal,
    PRIVACY_ENGINE_CLIENT_AES_GCM, PRIVACY_ENGINE_COMMITMENT_ONLY, PRIVATE_CIPHERTEXT_SCHEMA_V1,
    PRIVATE_PLANET_STATE_SPACE, SPY_REPORT_SPACE,
};

fn test_seal() -> PrivateStateSeal {
    PrivateStateSeal {
        privacy_engine: PRIVACY_ENGINE_COMMITMENT_ONLY,
        ciphertext_schema: PRIVATE_CIPHERTEXT_SCHEMA_V1,
        encryption_key_hash: [8; 32],
        decrypt_policy_hash: [9; 32],
    }
}

#[test]
fn market_fee_is_exact_without_u64_multiplication_overflow() {
    assert_eq!(market_fee(10_000), MARKET_FEE_BPS);
    assert_eq!(market_fee(u64::MAX), ((u64::MAX as u128) * (MARKET_FEE_BPS as u128) / 10_000) as u64);
    assert!(market_fee(u64::MAX) > u64::MAX / 10_000);
}

#[test]
fn sale_split_adds_up_to_the_price() {
    let s = settle_sale(1_000_000);
    assert_eq!(s.fee, 2_500);
    assert_eq!(s.seller_receives, 997_500);
    assert_eq!(s.fee + s.seller_receives, 1_000_000);
    let big = settle_sale(u64::MAX);
    assert_eq!(big.fee + big.seller_receives, u64::MAX);
}

#[test]
fn account_space_includes_anchor_discriminator() {
    assert!(PRIVATE_PLANET_STATE_SPACE > 8);
    assert!(SPY_REPORT_SPACE > 8);
}

#[test]
fn private_state_digest_rejects_zero_hashes() {
    let zero_digest = PrivateStateDigest {
        state_hash: [0; 32],
        encrypted_state_hash: [1; 32],
        seal: test_seal(),
        commitments: PrivateCommitments {
            resources: [1; 32],
            buildings: [1; 32],
            research: [1; 32],
            fleet: [1; 32],
            defense: [1; 32],
        },
    };
    assert!(validate_private_state_digest(&zero_digest).is_err());

    let valid_digest = PrivateStateDigest {
        state_hash: [2; 32],
        encrypted_state_hash: [3; 32],
        seal: test_seal(),
        commitments: PrivateCommitments {
            resources: [4; 32],
            buildings: [5; 32],
            research: [6; 32],
            fleet: [7; 32],
            defense: [8; 32],
        },
    };
    assert!(validate_private_state_digest(&valid_digest).is_ok());
}

#[test]
fn client_encryption_seal_requires_key_hash_and_policy() {
    let mut seal = test_seal();
    seal.privacy_engine = PRIVACY_ENGINE_CLIENT_AES_GCM;
    seal.encryption_key_hash = [0; 32];
    assert!(validate_private_state_seal(&seal).is_err());

    seal.encryption_key_hash = [7; 32];
    assert!(validate_private_state_seal(&seal).is_ok());

    seal.decrypt_policy_hash = [0; 32];
    assert!(validate_private_state_seal(&seal).is_err());
}

#[test]
fn encrypted_private_state_requires_ciphertext_and_salts() {
    let ciphertext = b"encrypted-state".to_vec();
    let digest = PrivateStateDigest {
        state_hash: [1; 32],
        encrypted_state_hash: [2; 32],
        seal: test_seal(),
        commitments: PrivateCommitments {
            resources: [1; 32],
            buildings: [2; 32],
            research: [3; 32],
            fleet: [4; 32],
            defense: [5; 32],
        },
    };
    let encrypted_state = EncryptedPrivateStateBlob { nonce: [6; 12], recovery_salt: [8; 16], kdf_salt: [7; 16], ciphertext };

    assert!(validate_encrypted_private_state(&digest, &encrypted_state).is_ok());
    let empty_state = EncryptedPrivateStateBlob { nonce: [6; 12], recovery_salt: [8; 16], kdf_salt: [7; 16], ciphertext: Vec::new() };
    assert!(validate_encrypted_private_state(&digest, &empty_state).is_err());
}
