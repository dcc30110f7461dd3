use slimjelly::error::AppError;
use slimjelly::secure_store::{
    decode_blob, decrypt_payload, derive_machine_key, machine_identity, open_session,
    seal_session, seal_with_nonce, EncryptedBlob,
};

const PAYLOAD: &[u8] =
    br#"{"access_token":"token-123","user_id":"user-456","server_id":"server-789"}"#;

#[test]
fn stores_and_loads_session_roundtrip() -> Result<(), AppError> {
    let identity = machine_identity("test-host", Some("0123456789abcdef\n".to_string()));
    let blob = seal_session(&identity, PAYLOAD)?;
    let loaded = open_session(&identity, &blob)?;
    assert_eq!(loaded, PAYLOAD.to_vec());
    Ok(())
}

#[test]
fn returns_error_for_invalid_nonce_length_blob() {
    let blob = EncryptedBlob {
        nonce_b64: "AA==".to_string(),
        ciphertext_b64: "AA==".to_string(),
    };
    let result = open_session("host:machine", &blob);
    assert!(matches!(
        result,
        Err(AppError::Crypto(message)) if message.contains("nonce length")
    ));
}

#[test]
fn machine_identity_joins_host_and_trimmed_id() {
    assert_eq!(machine_identity("box", Some("  abc \n".to_string())), "box:abc");
    assert_eq!(machine_identity("box", None), "box:unknown-machine-id");
}

#[test]
fn sealed_payload_opens_with_same_key_and_nonce() -> Result<(), AppError> {
    let key = [7u8; 32];
    let nonce = [9u8; 24];
    let blob = seal_with_nonce(&key, &nonce, PAYLOAD)?;
    assert_ne!(blob.ciphertext_b64, "");
    let (n, c) = decode_blob(&blob)?;
    assert_eq!(n, nonce.to_vec());
    assert_eq!(c.len(), PAYLOAD.len() + 16);
    let opened = decrypt_payload(&key, &n, &c)?;
    assert_eq!(opened, PAYLOAD.to_vec());
    Ok(())
}

#[test]
fn sealing_encodes_nonce_as_standard_base64() -> Result<(), AppError> {
    let blob = seal_with_nonce(&[1u8; 32], &[0u8; 24], b"x")?;
    assert_eq!(blob.nonce_b64, "AAAAAAAAAAAAAAAAAAAAAAAAAAAAAAAA");
    Ok(())
}

#[test]
fn wrong_key_is_refused() -> Result<(), AppError> {
    let blob = seal_with_nonce(&[7u8; 32], &[9u8; 24], PAYLOAD)?;
    let (n, c) = decode_blob(&blob)?;
    let result = decrypt_payload(&[8u8; 32], &n, &c);
    assert_eq!(result, Err(AppError::Crypto("aead::Error".to_string())));
    Ok(())
}

#[test]
fn tampered_ciphertext_is_refused() -> Result<(), AppError> {
    let blob = seal_with_nonce(&[7u8; 32], &[9u8; 24], PAYLOAD)?;
    let (n, mut c) = decode_blob(&blob)?;
    c[0] ^= 1;
    assert!(decrypt_payload(&[7u8; 32], &n, &c).is_err());
    Ok(())
}

#[test]
fn bad_nonce_encoding_is_reported() {
    let blob = EncryptedBlob {
        nonce_b64: "not base64!".to_string(),
        ciphertext_b64: "AA==".to_string(),
    };
    assert!(matches!(
        decode_blob(&blob),
        Err(AppError::Crypto(message)) if message.starts_with("invalid nonce encoding: ")
    ));
}

#[test]
fn bad_ciphertext_encoding_is_reported() {
    let blob = EncryptedBlob {
        nonce_b64: "AAAAAAAAAAAAAAAAAAAAAAAAAAAAAAAA".to_string(),
        ciphertext_b64: "%%%".to_string(),
    };
    assert!(matches!(
        decode_blob(&blob),
        Err(AppError::Crypto(message)) if message.starts_with("invalid ciphertext encoding: ")
    ));
}

#[test]
fn machine_key_is_a_32_byte_function_of_the_identity() -> Result<(), AppError> {
    let first = derive_machine_key("host-a:0123")?;
    assert_eq!(first.len(), 32);
    assert_ne!(first, b"host-a:0123"[..].to_vec());
    let other = derive_machine_key("host-b:0123")?;
    assert_ne!(first, other);
    Ok(())
}

#[test]
fn each_seal_draws_a_fresh_nonce() -> Result<(), AppError> {
    let identity = machine_identity("nonce-host", None);
    let a = seal_session(&identity, PAYLOAD)?;
    let b = seal_session(&identity, PAYLOAD)?;
    assert_ne!(a.nonce_b64, b.nonce_b64);
    assert_ne!(a.ciphertext_b64, b.ciphertext_b64);
    Ok(())
}

#[test]
fn another_machine_cannot_open_the_session() -> Result<(), AppError> {
    let blob = seal_session("host-a:1", PAYLOAD)?;
    assert_eq!(
        open_session("host-b:1", &blob),
        Err(AppError::Crypto("aead::Error".to_string()))
    );
    Ok(())
}
