use crync::identity::{Keypair, PeerIdentity, PublicKey, SecretKey, KEY_LEN, UNUSED_SIGN_KEY};

#[test]
fn keys_are_32_bytes() {
    assert_eq!(KEY_LEN, 32);
    assert_eq!(UNUSED_SIGN_KEY.len(), KEY_LEN);
}

#[test]
fn unused_sign_key_is_zero() {
    assert_eq!(UNUSED_SIGN_KEY, [0u8; 32]);
}

#[test]
fn secret_key_keeps_its_bytes() {
    let mut bytes = [7u8; 32];
    bytes[3] = 200;
    assert_eq!(SecretKey::from_bytes(bytes).into_bytes(), bytes);
}

#[test]
fn public_key_keeps_its_bytes() {
    let mut bytes = [9u8; 32];
    bytes[31] = 1;
    assert_eq!(PublicKey::from_bytes(bytes).into_bytes(), bytes);
}

#[test]
fn keys_with_other_bytes_differ() {
    assert_ne!(PublicKey::from_bytes([1; 32]), PublicKey::from_bytes([2; 32]));
    assert_ne!(SecretKey::from_bytes([1; 32]), SecretKey::from_bytes([2; 32]));
}

#[test]
fn identity_holds_the_public_key_and_the_placeholder() {
    let key = PublicKey::from_bytes([0xab; 32]);
    let id = PeerIdentity::new(key);
    assert_eq!(id.pub_enc_key, key);
    assert_eq!(id.pub_sign_key, UNUSED_SIGN_KEY);
    assert_eq!(id, PeerIdentity { pub_sign_key: [0; 32], pub_enc_key: key });
}

#[test]
fn identities_of_one_key_are_equal() {
    let key = PublicKey::from_bytes([5; 32]);
    assert_eq!(PeerIdentity::new(key), PeerIdentity::new(key));
    assert_ne!(PeerIdentity::new(key), PeerIdentity::new(PublicKey::from_bytes([6; 32])));
}

#[test]
fn keypair_holds_both_keys() {
    let pair = Keypair {
        public: PublicKey::from_bytes([1; 32]),
        secret: SecretKey::from_bytes([2; 32]),
    };
    assert_eq!(pair.public.into_bytes(), [1; 32]);
    assert_eq!(pair.secret.into_bytes(), [2; 32]);
}
