use base64::Engine;
use rsa::pkcs8::EncodePublicKey;
use rsa::rand_core::OsRng;
use rsa::{RsaPrivateKey, RsaPublicKey};
use trading_ig::error::Error;
use trading_ig::session::encryption::{encrypt_password, password_plaintext};

#[test]
fn round_trip_decrypts_to_password_pipe_timestamp() {
    let mut rng = OsRng;
    let private_key = RsaPrivateKey::new(&mut rng, 1024).expect("generate key");
    let public_key = RsaPublicKey::from(&private_key);

    let der = public_key.to_public_key_der().expect("encode").into_vec();
    let key_b64 = base64::engine::general_purpose::STANDARD.encode(&der);

    let encrypted = encrypt_password("hunter2", &key_b64, 1_700_000_000_000).unwrap();
    let bytes = base64::engine::general_purpose::STANDARD
        .decode(&encrypted)
        .unwrap();
    let plain = private_key
        .decrypt(rsa::Pkcs1v15Encrypt, &bytes)
        .expect("decrypt");
    assert_eq!(
        std::str::from_utf8(&plain).unwrap(),
        "hunter2|1700000000000"
    );
}

#[test]
fn plaintext_is_password_pipe_timestamp() {
    assert_eq!(password_plaintext("p", -5), "p|-5");
}

#[test]
fn bad_keys_are_auth_errors() {
    match encrypt_password("p", "%%%", 1) {
        Err(Error::Auth(m)) => assert!(m.starts_with("invalid base64 in encryption key: ")),
        other => panic!("unexpected {other:?}"),
    }
    match encrypt_password("p", "AAAA", 1) {
        Err(Error::Auth(m)) => assert!(m.starts_with("invalid RSA public key: ")),
        other => panic!("unexpected {other:?}"),
    }
}
