use vaultless_core::message_proof::CreateProof;
use vaultless_core::webhook::WebhookRecord;

#[test]
fn test_create_proof_validation() {
    let invalid_hash = CreateProof {
        message_id: 0x0f0e_0d0c_0b0a_4908_8706_050403020100,
        content_hash: "short".to_string(),
        signature: "sig".to_string(),
        public_key: "key".to_string(),
        algorithm: None,
        hash_algorithm: None,
        proof_metadata: None,
    };

    assert!(invalid_hash.validate().is_err());
}

#[test]
fn test_generate_signing_secret() {
    let secret = WebhookRecord::generate_signing_secret();
    assert!(secret.starts_with("whsec_"));
    assert_eq!(secret.len(), 70);
}
