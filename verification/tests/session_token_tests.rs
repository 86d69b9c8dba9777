use vaultless_core::error::VaultlessError;
use vaultless_core::session::token::{
    create_session_token, create_session_token_at, extract_token_expiration, rotation_verdict, verify_session_token, SessionData,
    SessionKeyManager,
};

#[test]
fn test_key_generation() {
    let key_hex = SessionKeyManager::generate_new_key().unwrap();
    assert_eq!(key_hex.len(), 64);
}

#[test]
fn test_session_token_roundtrip() {
    let key_hex = SessionKeyManager::generate_new_key().unwrap();
    let key_manager = SessionKeyManager::new(&key_hex, None).unwrap();

    let session_data = SessionData {
        client_id: 0x6f1c_2a3b_4c5d_4e6f_8a9b_0c1d2e3f4a5b,
        application_id: 0x1111_2222_3333_4444_8555_666677778888,
        platform: "ios".to_string(),
        device_trust_score: 85,
        app_fingerprint: 0x9999_aaaa_bbbb_4ccc_8ddd_eeeeffff0000,
        app_tier: Some("premium".to_string()),
        application_secret_api_key_id: None,
        pubkey: None,
    };

    let token = create_session_token(key_manager.current(), session_data.clone(), 3600).unwrap();
    assert!(token.starts_with("v4.local."));

    let (verified_data, _jti) = verify_session_token(&key_manager, &token).unwrap();
    assert_eq!(verified_data.client_id, session_data.client_id);
    assert_eq!(verified_data.platform, session_data.platform);
}

#[test]
fn test_expiration_extraction() {
    let key_hex = SessionKeyManager::generate_new_key().unwrap();
    let key_manager = SessionKeyManager::new(&key_hex, None).unwrap();

    let session_data = SessionData {
        client_id: 0x0102_0304_0506_4708_890a_0b0c0d0e0f10,
        application_id: 0x1020_3040_5060_4780_90a0_b0c0d0e0f000,
        platform: "android".to_string(),
        device_trust_score: 90,
        app_fingerprint: 0x2222_3333_4444_4555_8666_777788889999,
        app_tier: None,
        application_secret_api_key_id: None,
        pubkey: None,
    };

    let token = create_session_token(key_manager.current(), session_data, 3600).unwrap();

    let expires_at = extract_token_expiration(&key_manager, &token).unwrap();
    assert!(expires_at > chrono::Utc::now().timestamp_micros());
}

#[test]
fn session_token_keeps_every_field() {
    let key_hex = SessionKeyManager::generate_new_key().unwrap();
    let key_manager = SessionKeyManager::new(&key_hex, None).unwrap();
    let data = SessionData {
        client_id: 1,
        application_id: 2,
        platform: "web".to_string(),
        device_trust_score: 7,
        app_fingerprint: 3,
        app_tier: Some("free".to_string()),
        application_secret_api_key_id: Some(4),
        pubkey: Some("pk".to_string()),
    };
    let token = create_session_token(key_manager.current(), data.clone(), 60).unwrap();
    let (back, jti) = verify_session_token(&key_manager, &token).unwrap();
    assert_eq!(back.client_id, 1);
    assert_eq!(back.application_id, 2);
    assert_eq!(back.platform, "web");
    assert_eq!(back.device_trust_score, 7);
    assert_eq!(back.app_fingerprint, 3);
    assert_eq!(back.app_tier, Some("free".to_string()));
    assert_eq!(back.application_secret_api_key_id, Some(4));
    assert_eq!(back.pubkey, Some("pk".to_string()));
    assert_eq!(jti.len(), 36);
}

#[test]
fn token_from_rotated_key_is_still_accepted() {
    let old_key = SessionKeyManager::generate_new_key().unwrap();
    let new_key = SessionKeyManager::generate_new_key().unwrap();
    let before = SessionKeyManager::new(&old_key, None).unwrap();
    let data = SessionData {
        client_id: 10,
        application_id: 20,
        platform: "ios".to_string(),
        device_trust_score: 1,
        app_fingerprint: 30,
        app_tier: None,
        application_secret_api_key_id: None,
        pubkey: None,
    };
    let token = create_session_token(before.current(), data, 60).unwrap();
    let after = SessionKeyManager::new(&new_key, Some(&old_key)).unwrap();
    assert!(after.has_previous_key());
    assert_eq!(verify_session_token(&after, &token).unwrap().0.client_id, 10);
    let other = SessionKeyManager::new(&new_key, None).unwrap();
    assert!(verify_session_token(&other, &token).is_err());
}

#[test]
fn key_text_must_be_32_bytes_of_hex() {
    assert!(SessionKeyManager::new("abcd", None).is_err());
    assert!(SessionKeyManager::new(&"zz".repeat(32), None).is_err());
    assert!(SessionKeyManager::new(&"0f".repeat(32), None).is_ok());
    assert!(SessionKeyManager::new(&"0F".repeat(32), Some("12")).is_err());
}

#[test]
fn malformed_token_is_unauthorized() {
    let key_manager = SessionKeyManager::new(&"00".repeat(32), None).unwrap();
    match verify_session_token(&key_manager, "not-a-token") {
        Err(vaultless_core::error::VaultlessError::Unauthorized(_)) => {}
        other => panic!("unexpected: {:?}", other.map(|(d, j)| (d.client_id, j))),
    }
}

#[test]
fn rotation_prefers_the_current_key() {
    let claims = pasetors::claims::Claims::new().unwrap();
    let refused = || Err(VaultlessError::Unauthorized("Malformed token: x".to_string()));
    assert_eq!(rotation_verdict(Ok(claims.clone()), None).unwrap(), claims);
    assert_eq!(rotation_verdict(refused(), Some(Ok(claims.clone()))).unwrap(), claims);
    assert_eq!(
        rotation_verdict(refused(), Some(Err(VaultlessError::Unauthorized("Token validation failed: y".to_string()))))
            .unwrap_err(),
        VaultlessError::Unauthorized("Token validation failed: y".to_string())
    );
    assert_eq!(
        rotation_verdict(refused(), None).unwrap_err(),
        VaultlessError::Unauthorized("Invalid or expired token".to_string())
    );
}

#[test]
fn rotation_refusals_name_their_cause() {
    let key_hex = SessionKeyManager::generate_new_key().unwrap();
    let alone = SessionKeyManager::new(&key_hex, None).unwrap();
    assert_eq!(
        alone.verify_with_rotation("not a token").unwrap_err(),
        VaultlessError::Unauthorized("Invalid or expired token".to_string())
    );
    let other = SessionKeyManager::generate_new_key().unwrap();
    let rotating = SessionKeyManager::new(&key_hex, Some(&other)).unwrap();
    match rotating.verify_with_rotation("not a token").unwrap_err() {
        VaultlessError::Unauthorized(m) => assert!(m.starts_with("Malformed token: ")),
        e => panic!("unexpected {e:?}"),
    }
}

#[test]
fn token_made_with_the_previous_key_reads_back_whole() {
    let k1 = "11".repeat(32);
    let k2 = "22".repeat(32);
    let d = SessionData {
        client_id: 1,
        application_id: 2,
        platform: "ios".to_string(),
        app_fingerprint: 3,
        device_trust_score: 85,
        app_tier: Some("premium".to_string()),
        application_secret_api_key_id: None,
        pubkey: None,
    };
    let maker = SessionKeyManager::new(&k1, None).unwrap();
    assert_eq!(maker.current(), &[0x11u8; 32][..]);
    let t = create_session_token(maker.current(), d.clone(), 3600).unwrap();
    let km = SessionKeyManager::new(&k2, Some(&k1)).unwrap();
    let (back, jti) = verify_session_token(&km, &t).unwrap();
    assert_eq!(back.client_id, 1);
    assert_eq!(back.application_id, 2);
    assert_eq!(back.platform, "ios");
    assert_eq!(back.app_fingerprint, 3);
    assert_eq!(back.device_trust_score, 85);
    assert_eq!(back.app_tier.as_deref(), Some("premium"));
    assert_eq!(back.application_secret_api_key_id, None);
    assert_eq!(back.pubkey, None);
    assert!(!jti.is_empty());
    assert!(km.verify_with_rotation(&t).is_ok());
    let only_new = SessionKeyManager::new(&k2, None).unwrap();
    assert_eq!(
        only_new.verify_with_rotation(&t).unwrap_err(),
        VaultlessError::Unauthorized("Invalid or expired token".to_string())
    );
}

#[test]
fn a_key_of_the_wrong_length_makes_no_token() {
    let d = SessionData {
        client_id: 1,
        application_id: 2,
        platform: "ios".to_string(),
        app_fingerprint: 3,
        device_trust_score: 0,
        app_tier: None,
        application_secret_api_key_id: None,
        pubkey: None,
    };
    assert!(matches!(create_session_token(&[7u8; 31], d, 60), Err(VaultlessError::Internal(_))));
}

#[test]
fn generated_keys_are_lowercase_hex() {
    let k = SessionKeyManager::generate_new_key().unwrap();
    assert!(k.chars().all(|c| c.is_ascii_digit() || ('a'..='f').contains(&c)));
    assert!(SessionKeyManager::new(&k, None).is_ok());
}

fn now_micros_for_test() -> i64 {
    let d = std::time::SystemTime::now().duration_since(std::time::UNIX_EPOCH).unwrap();
    d.as_micros() as i64
}

fn plain_session() -> SessionData {
    SessionData {
        client_id: 1,
        application_id: 2,
        platform: "web".to_string(),
        app_fingerprint: 3,
        device_trust_score: 7,
        app_tier: None,
        application_secret_api_key_id: None,
        pubkey: None,
    }
}

#[test]
fn token_made_at_an_instant_expires_ttl_later_and_carries_its_identifier() {
    let km = SessionKeyManager::new(&"42".repeat(32), None).unwrap();
    let now = now_micros_for_test();
    let id: u128 = 0x0123_4567_89ab_4def_8123_456789abcdef;
    let t = create_session_token_at(km.current(), plain_session(), 3600, now, id).unwrap();
    assert_eq!(extract_token_expiration(&km, &t).unwrap(), now + 3_600_000_000);
    let (back, jti) = verify_session_token(&km, &t).unwrap();
    assert_eq!(jti, "01234567-89ab-4def-8123-456789abcdef");
    assert_eq!(back.platform, "web");
    assert_eq!(back.device_trust_score, 7);
}

#[test]
fn token_whose_expiry_is_past_the_last_instant_is_refused() {
    let km = SessionKeyManager::new(&"42".repeat(32), None).unwrap();
    let last: i64 = 8_210_266_876_799_999_999;
    assert_eq!(
        create_session_token_at(km.current(), plain_session(), 1, last, 9).unwrap_err(),
        VaultlessError::Internal("Failed to create token: expiry out of range".to_string())
    );
}
