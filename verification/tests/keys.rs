use tzibbur_bridge::crypto::{KeyRing, SessionCipher};
use tzibbur_bridge::session::{AesGcmCipher, SecretCipher};

#[test]
fn roundtrip_is_bound_to_account() {
    let c = SessionCipher::new(KeyRing::new([7u8; 32], None));
    let blob = c.encrypt("tok", "acct-a").unwrap();
    assert!(blob.starts_with("v2:"));
    let o = c.decrypt(&blob, "acct-a").unwrap();
    assert_eq!(o.token, "tok");
    assert!(!o.rewrap);
    // Same master key, different account: useless.
    assert!(c.decrypt(&blob, "acct-b").is_err());
    // Different master key: useless.
    assert!(SessionCipher::new(KeyRing::new([8u8; 32], None))
        .decrypt(&blob, "acct-a")
        .is_err());
}

#[test]
fn rotation_and_legacy_rewrap() {
    let old = SessionCipher::new(KeyRing::new([1u8; 32], None));
    let blob = old.encrypt("tok", "a").unwrap();
    let rotated = SessionCipher::new(KeyRing::new([2u8; 32], Some([1u8; 32])));
    let o = rotated.decrypt(&blob, "a").unwrap();
    assert_eq!(o.token, "tok");
    assert!(o.rewrap);
    let fresh = rotated.encrypt(&o.token, "a").unwrap();
    assert!(!rotated.decrypt(&fresh, "a").unwrap().rewrap);
    assert!(SessionCipher::new(KeyRing::new([2u8; 32], None))
        .decrypt(&blob, "a")
        .is_err());

    // Legacy: raw AES-GCM under the master key without a prefix.
    let legacy = AesGcmCipher::new([1u8; 32]).encrypt(b"tok").unwrap();
    let legacy_blob = base64::Engine::encode(&base64::engine::general_purpose::STANDARD, legacy);
    let o = rotated.decrypt(&legacy_blob, "whatever").unwrap();
    assert_eq!(o.token, "tok");
    assert!(o.rewrap);
}

#[test]
fn cache_keys_differ_per_account_and_rotate() {
    let r = KeyRing::new([1u8; 32], Some([0u8; 32]));
    assert_ne!(r.cache_key("a"), r.cache_key("b"));
    assert_eq!(r.previous_cache_keys("a").len(), 1);
    assert_eq!(
        r.previous_cache_keys("a")[0],
        KeyRing::new([0u8; 32], None).cache_key("a")
    );
}

#[test]
fn aes_gcm_roundtrip_and_framing() {
    let c = AesGcmCipher::random();
    let wire = c.encrypt(b"tok").unwrap();
    assert_eq!(wire[0], 12);
    assert_eq!(c.decrypt(&wire).unwrap(), b"tok");
    assert!(AesGcmCipher::random().decrypt(&wire).is_err());
}
