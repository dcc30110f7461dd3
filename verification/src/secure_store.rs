//! The sealed session file: a machine-bound key (Argon2id over the host name
//! and machine id), XChaCha20-Poly1305 encryption of the session payload
//! under a fresh random nonce, and base64 framing of nonce and ciphertext.
//!
//! The payload is the session's JSON bytes; turning a [`SessionToken`] into
//! those bytes and back, and reading or writing the file, is left to the
//! caller.

use vstd::prelude::*;
use vstd::utf8::encode_utf8;

use crate::error::{is_crypto_error, AppError};
use crate::text::{concat2, starts_with, trim, trim_str, string_of};

verus! {

/// Salt of the machine-key derivation.
pub const KEY_DERIVE_SALT: &'static str = "slimjelly-machine-v1";

/// Machine id used when none can be read.
pub const UNKNOWN_MACHINE_ID: &'static str = "unknown-machine-id";

/// Length of an XChaCha20-Poly1305 nonce, in bytes.
pub const NONCE_LEN: usize = 24;

/// Length of the derived key, in bytes.
pub const KEY_LEN: usize = 32;

/// Argon2 memory cost of the key derivation, in KiB blocks.
pub const KDF_MEMORY_KIB: u32 = 32768;

/// Argon2 iteration count of the key derivation.
pub const KDF_ITERATIONS: u32 = 3;

/// Argon2 lanes of the key derivation.
pub const KDF_LANES: u32 = 1;

/// The stored login of a user on a server.
#[derive(Debug, Clone, PartialEq, Eq)]
pub struct SessionToken {
    pub access_token: String,
    pub user_id: String,
    pub server_id: Option<String>,
}

/// The sealed form of a session: base64 of the nonce and of the ciphertext.
#[derive(Debug, Clone, PartialEq, Eq)]
pub struct EncryptedBlob {
    pub nonce_b64: String,
    pub ciphertext_b64: String,
}

/// What Argon2id (version 0x13) derives from `pwd` and `salt` with memory
/// cost `m_cost`, `t_cost` iterations, `p_cost` lanes and an output of
/// `out_len` bytes.
pub uninterp spec fn argon2id_output(
    pwd: Seq<u8>,
    salt: Seq<u8>,
    m_cost: u32,
    t_cost: u32,
    p_cost: u32,
    out_len: usize,
) -> Seq<u8>;

/// The XChaCha20-Poly1305 ciphertext (with its tag) of `plaintext` under
/// `key` and `nonce`, with no associated data.
pub uninterp spec fn xchacha_sealed(key: Seq<u8>, nonce: Seq<u8>, plaintext: Seq<u8>) -> Seq<u8>;

/// The plaintext that XChaCha20-Poly1305 recovers from `ciphertext` under
/// `key` and `nonce`, or `None` where authentication fails.
pub uninterp spec fn xchacha_opened(key: Seq<u8>, nonce: Seq<u8>, ciphertext: Seq<u8>) -> Option<
    Seq<u8>,
>;

/// The standard (padded) base64 text of `bytes`.
pub uninterp spec fn base64_text(bytes: Seq<u8>) -> Seq<char>;

/// The bytes that standard base64 decoding gives for `text`, or `None`
/// where `text` is not valid base64.
pub uninterp spec fn base64_bytes(text: Seq<char>) -> Option<Seq<u8>>;

/// Argon2id with the given cost parameters (`argon2::Params::new`,
/// `Argon2::new(Algorithm::Argon2id, Version::V0x13, ..)`,
/// `Argon2::hash_password_into`). With parameters in the ranges that
/// `Params::new` accepts and a salt of 8 to 2^32 - 1 bytes, the crate fails
/// only on a password longer than 2^32 - 1 bytes; the output is named by
/// `argon2id_output`. The error's text is not described.
#[verifier::external_body]
fn argon2id_hash(
    pwd: &[u8],
    salt: &[u8],
    m_cost: u32,
    t_cost: u32,
    p_cost: u32,
    out_len: usize,
) -> (r: Result<Vec<u8>, String>)
    requires
        1 <= p_cost <= 0xFFFFFF,
        m_cost >= 8 * p_cost,
        t_cost >= 1,
        4 <= out_len <= 0xFFFFFFFF,
        8 <= salt@.len() <= 0xFFFFFFFF,
    ensures
        r is Ok <==> pwd@.len() <= 0xFFFFFFFF,
        r matches Ok(k) ==> k@ == argon2id_output(pwd@, salt@, m_cost, t_cost, p_cost, out_len)
            && k@.len() == out_len,
{
    let params = argon2::Params::new(m_cost, t_cost, p_cost, Some(out_len))
        .map_err(|e| e.to_string())?;
    let argon = argon2::Argon2::new(argon2::Algorithm::Argon2id, argon2::Version::V0x13, params);
    let mut out = vec![0u8; out_len];
    argon.hash_password_into(pwd, salt, &mut out).map_err(|e| e.to_string())?;
    Ok(out)
}

/// `len` bytes from the system's random source (`getrandom::fill`). Nothing
/// is stated of the bytes beyond their number, nor of when the source fails.
#[verifier::external_body]
fn random_bytes(len: usize) -> (r: Result<Vec<u8>, String>)
    ensures
        r matches Ok(v) ==> v@.len() == len,
{
    let mut buf = vec![0u8; len];
    getrandom::fill(&mut buf).map_err(|e| e.to_string())?;
    Ok(buf)
}

/// XChaCha20-Poly1305 encryption (`KeyInit::new`, `Aead::encrypt`) of
/// `plaintext` under a 32-byte key and a 24-byte nonce. The crate refuses a
/// plaintext of 64 * (2^32 - 1) bytes or more, with an error that reads
/// `aead::Error`; the ciphertext is named by `xchacha_sealed`, and
/// decryption with the same key and nonce gives `plaintext` back.
#[verifier::external_body]
fn xchacha_encrypt(key: &[u8], nonce: &[u8], plaintext: &[u8]) -> (r: Result<Vec<u8>, String>)
    requires
        key@.len() == 32,
        nonce@.len() == 24,
    ensures
        r is Ok <==> plaintext@.len() / 64 < 0xFFFFFFFF,
        r matches Ok(c) ==> c@ == xchacha_sealed(key@, nonce@, plaintext@) && xchacha_opened(
            key@,
            nonce@,
            c@,
        ) == Some(plaintext@),
        r matches Err(m) ==> m@ == "aead::Error"@,
{
    let cipher: chacha20poly1305::XChaCha20Poly1305 = chacha20poly1305::KeyInit::new(
        chacha20poly1305::Key::from_slice(key),
    );
    chacha20poly1305::aead::Aead::encrypt(
        &cipher,
        chacha20poly1305::XNonce::from_slice(nonce),
        plaintext,
    ).map_err(|e| e.to_string())
}

/// XChaCha20-Poly1305 decryption (`KeyInit::new`, `Aead::decrypt`) of
/// `ciphertext` under a 32-byte key and a 24-byte nonce; the outcome is
/// named by `xchacha_opened`, and a failure reads `aead::Error`.
#[verifier::external_body]
fn xchacha_decrypt(key: &[u8], nonce: &[u8], ciphertext: &[u8]) -> (r: Result<Vec<u8>, String>)
    requires
        key@.len() == 32,
        nonce@.len() == 24,
    ensures
        match r {
            Ok(p) => xchacha_opened(key@, nonce@, ciphertext@) == Some(p@),
            Err(m) => xchacha_opened(key@, nonce@, ciphertext@) is None && m@ == "aead::Error"@,
        },
{
    let cipher: chacha20poly1305::XChaCha20Poly1305 = chacha20poly1305::KeyInit::new(
        chacha20poly1305::Key::from_slice(key),
    );
    chacha20poly1305::aead::Aead::decrypt(
        &cipher,
        chacha20poly1305::XNonce::from_slice(nonce),
        ciphertext,
    ).map_err(|e| e.to_string())
}

/// Standard base64 encoding (`Engine::encode` on `general_purpose::STANDARD`);
/// the text is named by `base64_text`, and decoding it gives `bytes` back.
#[verifier::external_body]
fn base64_encode(bytes: &[u8]) -> (r: String)
    ensures
        r@ == base64_text(bytes@),
        base64_bytes(r@) == Some(bytes@),
{
    base64::Engine::encode(&base64::engine::general_purpose::STANDARD, bytes)
}

/// Standard base64 decoding (`Engine::decode` on `general_purpose::STANDARD`);
/// the outcome is named by `base64_bytes`. The error's text is not described.
#[verifier::external_body]
fn base64_decode(text: &str) -> (r: Result<Vec<u8>, String>)
    ensures
        match r {
            Ok(v) => base64_bytes(text@) == Some(v@),
            Err(_) => base64_bytes(text@) is None,
        },
{
    base64::Engine::decode(&base64::engine::general_purpose::STANDARD, text).map_err(
        |e| e.to_string(),
    )
}

/// The identity that binds the key to this machine: the host name, a colon,
/// and the trimmed machine id (or the placeholder where none was read).
pub open spec fn machine_identity_text(host: Seq<char>, machine_id: Option<Seq<char>>) -> Seq<
    char,
> {
    host + ":"@ + trim(
        match machine_id {
            Some(m) => m,
            None => UNKNOWN_MACHINE_ID@,
        },
    )
}

/// The key derived for the machine identity `identity`.
pub open spec fn machine_key(identity: Seq<char>) -> Seq<u8> {
    argon2id_output(
        encode_utf8(identity),
        encode_utf8(KEY_DERIVE_SALT@),
        KDF_MEMORY_KIB,
        KDF_ITERATIONS,
        KDF_LANES,
        KEY_LEN,
    )
}

/// The blob that sealing `payload` under `key` and `nonce` gives, as the
/// texts of its nonce and ciphertext.
pub open spec fn sealed_blob(key: Seq<u8>, nonce: Seq<u8>, payload: Seq<u8>) -> (
    Seq<char>,
    Seq<char>,
) {
    (base64_text(nonce), base64_text(xchacha_sealed(key, nonce, payload)))
}

/// The payload that a blob with these texts opens to under `key`, or `None`
/// where it does not open.
pub open spec fn opened_payload(key: Seq<u8>, nonce_text: Seq<char>, ciphertext_text: Seq<char>) -> Option<
    Seq<u8>,
> {
    match (base64_bytes(nonce_text), base64_bytes(ciphertext_text)) {
        (Some(n), Some(c)) => if n.len() == NONCE_LEN {
            xchacha_opened(key, n, c)
        } else {
            None
        },
        _ => None,
    }
}

/// How decoding a blob with these texts fails, in the order of the checks:
/// a bad nonce encoding, a bad ciphertext encoding, or a nonce of the wrong
/// length; `None` where it decodes.
pub open spec fn blob_decode_failure(e: AppError, nonce_text: Seq<char>, ciphertext_text: Seq<char>) -> bool {
    if base64_bytes(nonce_text) is None {
        e matches AppError::Crypto(m) && starts_with(m@, "invalid nonce encoding: "@)
    } else if base64_bytes(ciphertext_text) is None {
        e matches AppError::Crypto(m) && starts_with(m@, "invalid ciphertext encoding: "@)
    } else {
        is_crypto_error(e, "invalid nonce length in encrypted session"@)
    }
}

/// Whether a blob with these texts decodes to a nonce of the right length
/// and a ciphertext.
pub open spec fn blob_decodes(nonce_text: Seq<char>, ciphertext_text: Seq<char>) -> bool {
    &&& base64_bytes(nonce_text) is Some
    &&& base64_bytes(ciphertext_text) is Some
    &&& base64_bytes(nonce_text)->Some_0.len() == NONCE_LEN
}

/// The machine identity from the host name and the machine id that was read,
/// if any.
pub fn machine_identity(host: &str, machine_id: Option<String>) -> (id: String)
    ensures
        id@ == machine_identity_text(host@, match machine_id {
            Some(m) => Some(m@),
            None => None,
        }),
{
    let raw = match machine_id {
        Some(m) => m,
        None => String::from_str(UNKNOWN_MACHINE_ID),
    };
    let trimmed = trim_str(raw.as_str());
    let t = string_of(&trimmed);
    let head = concat2(host, ":");
    let id = concat2(head.as_str(), t.as_str());
    proof {
        reveal_strlit(":");
    }
    id
}

/// Derives the 32-byte key for the machine identity `identity`.
pub fn derive_machine_key(identity: &str) -> (r: Result<Vec<u8>, AppError>)
    ensures
        r is Ok <==> encode_utf8(identity@).len() <= 0xFFFFFFFF,
        r matches Ok(k) ==> k@ == machine_key(identity@) && k@.len() == KEY_LEN,
        r matches Err(e) ==> e matches AppError::Crypto(m) && starts_with(
            m@,
            "key derivation failed: "@,
        ),
{
    let salt = KEY_DERIVE_SALT.as_bytes();
    proof {
        reveal_strlit("slimjelly-machine-v1");
        assert(vstd::utf8::is_ascii_chars(KEY_DERIVE_SALT@));
        vstd::utf8::is_ascii_chars_encode_utf8(KEY_DERIVE_SALT@);
    }
    match argon2id_hash(
        identity.as_bytes(),
        salt,
        KDF_MEMORY_KIB,
        KDF_ITERATIONS,
        KDF_LANES,
        KEY_LEN,
    ) {
        Ok(k) => Ok(k),
        Err(m) => {
            let msg = concat2("key derivation failed: ", m.as_str());
            proof {
                crate::text::lemma_starts_with_concat("key derivation failed: "@, m@);
            }
            Err(AppError::Crypto(msg))
        },
    }
}

/// Seals `payload` under `key` with the given nonce. Opening the result with
/// the same key gives `payload` back.
pub fn seal_with_nonce(key: &[u8], nonce: &[u8], payload: &[u8]) -> (r: Result<
    EncryptedBlob,
    AppError,
>)
    requires
        key@.len() == KEY_LEN,
        nonce@.len() == NONCE_LEN,
    ensures
        r is Ok <==> payload@.len() / 64 < 0xFFFFFFFF,
        r matches Ok(b) ==> (b.nonce_b64@, b.ciphertext_b64@) == sealed_blob(key@, nonce@, payload@)
            && opened_payload(key@, b.nonce_b64@, b.ciphertext_b64@) == Some(payload@),
        r matches Err(e) ==> is_crypto_error(e, "aead::Error"@),
{
    match xchacha_encrypt(key, nonce, payload) {
        Ok(ciphertext) => {
            let nonce_b64 = base64_encode(nonce);
            let ciphertext_b64 = base64_encode(ciphertext.as_slice());
            Ok(EncryptedBlob { nonce_b64, ciphertext_b64 })
        },
        Err(m) => Err(AppError::Crypto(m)),
    }
}

/// The error is a crypto error whose text begins with `prefix`.
pub open spec fn crypto_error_with_prefix(e: AppError, prefix: Seq<char>) -> bool {
    e matches AppError::Crypto(m) && starts_with(m@, prefix)
}

/// Seals `payload` for the machine identity `identity` under a fresh random
/// nonce. Whatever nonce was drawn, the blob opens to `payload` under the
/// machine's key. The key is derived first (failing only for an identity
/// over 2^32 - 1 bytes), then the nonce drawn (failing only where the
/// system's random source does), then the payload encrypted (failing only
/// for a payload of 64 * (2^32 - 1) bytes or more).
pub fn seal_session(identity: &str, payload: &[u8]) -> (r: Result<EncryptedBlob, AppError>)
    ensures
        r matches Ok(b) ==> opened_payload(machine_key(identity@), b.nonce_b64@, b.ciphertext_b64@)
            == Some(payload@),
        encode_utf8(identity@).len() > 0xFFFFFFFF ==> (r matches Err(e) && crypto_error_with_prefix(
            e,
            "key derivation failed: "@,
        )),
        encode_utf8(identity@).len() <= 0xFFFFFFFF ==> match r {
            Ok(_) => payload@.len() / 64 < 0xFFFFFFFF,
            Err(e) => crypto_error_with_prefix(e, "nonce generation failed: "@) || (payload@.len()
                / 64 >= 0xFFFFFFFF && is_crypto_error(e, "aead::Error"@)),
        },
{
    let key = derive_machine_key(identity)?;
    let nonce = match random_bytes(NONCE_LEN) {
        Ok(n) => n,
        Err(m) => {
            let msg = concat2("nonce generation failed: ", m.as_str());
            proof {
                crate::text::lemma_starts_with_concat("nonce generation failed: "@, m@);
            }
            return Err(AppError::Crypto(msg));
        },
    };
    seal_with_nonce(key.as_slice(), nonce.as_slice(), payload)
}

/// A blob that opens under some key is one that decodes, so opening it for
/// the machine whose key that is gives back exactly the payload (see
/// `open_session`); in particular opening what `seal_session` made for an
/// identity gives back the sealed payload.
pub proof fn opened_blob_decodes(key: Seq<u8>, nonce_text: Seq<char>, ciphertext_text: Seq<char>)
    requires
        opened_payload(key, nonce_text, ciphertext_text) is Some,
    ensures
        blob_decodes(nonce_text, ciphertext_text),
{
}

/// Decodes the nonce and the ciphertext of `blob`, checking the nonce's
/// length.
pub fn decode_blob(blob: &EncryptedBlob) -> (r: Result<(Vec<u8>, Vec<u8>), AppError>)
    ensures
        r is Ok <==> blob_decodes(blob.nonce_b64@, blob.ciphertext_b64@),
        r matches Ok((n, c)) ==> base64_bytes(blob.nonce_b64@) == Some(n@) && base64_bytes(
            blob.ciphertext_b64@,
        ) == Some(c@),
        r matches Err(e) ==> blob_decode_failure(e, blob.nonce_b64@, blob.ciphertext_b64@),
{
    let nonce = match base64_decode(blob.nonce_b64.as_str()) {
        Ok(n) => n,
        Err(m) => {
            let msg = concat2("invalid nonce encoding: ", m.as_str());
            proof {
                crate::text::lemma_starts_with_concat("invalid nonce encoding: "@, m@);
            }
            return Err(AppError::Crypto(msg));
        },
    };
    let ciphertext = match base64_decode(blob.ciphertext_b64.as_str()) {
        Ok(c) => c,
        Err(m) => {
            let msg = concat2("invalid ciphertext encoding: ", m.as_str());
            proof {
                crate::text::lemma_starts_with_concat("invalid ciphertext encoding: "@, m@);
            }
            return Err(AppError::Crypto(msg));
        },
    };
    if nonce.len() != NONCE_LEN {
        return Err(AppError::Crypto(String::from_str("invalid nonce length in encrypted session")));
    }
    Ok((nonce, ciphertext))
}

/// Opens `ciphertext` under `key` and `nonce`; a failed authentication
/// reads `aead::Error`.
pub fn decrypt_payload(key: &[u8], nonce: &[u8], ciphertext: &[u8]) -> (r: Result<
    Vec<u8>,
    AppError,
>)
    requires
        key@.len() == KEY_LEN,
        nonce@.len() == NONCE_LEN,
    ensures
        match r {
            Ok(p) => xchacha_opened(key@, nonce@, ciphertext@) == Some(p@),
            Err(e) => xchacha_opened(key@, nonce@, ciphertext@) is None && is_crypto_error(
                e,
                "aead::Error"@,
            ),
        },
{
    match xchacha_decrypt(key, nonce, ciphertext) {
        Ok(p) => Ok(p),
        Err(m) => Err(AppError::Crypto(m)),
    }
}

/// Opens `blob` for the machine identity `identity`: the blob is decoded
/// first, then the key is derived and the ciphertext opened.
pub fn open_session(identity: &str, blob: &EncryptedBlob) -> (r: Result<Vec<u8>, AppError>)
    ensures
        !blob_decodes(blob.nonce_b64@, blob.ciphertext_b64@) ==> (r matches Err(e)
            && blob_decode_failure(e, blob.nonce_b64@, blob.ciphertext_b64@)),
        blob_decodes(blob.nonce_b64@, blob.ciphertext_b64@) && encode_utf8(identity@).len()
            > 0xFFFFFFFF ==> (r matches Err(e) && e matches AppError::Crypto(m) && starts_with(
            m@,
            "key derivation failed: "@,
        )),
        blob_decodes(blob.nonce_b64@, blob.ciphertext_b64@) && encode_utf8(identity@).len()
            <= 0xFFFFFFFF ==> match r {
            Ok(p) => opened_payload(machine_key(identity@), blob.nonce_b64@, blob.ciphertext_b64@)
                == Some(p@),
            Err(e) => opened_payload(
                machine_key(identity@),
                blob.nonce_b64@,
                blob.ciphertext_b64@,
            ) is None && is_crypto_error(e, "aead::Error"@),
        },
{
    let (nonce, ciphertext) = decode_blob(blob)?;
    let key = derive_machine_key(identity)?;
    decrypt_payload(key.as_slice(), nonce.as_slice(), ciphertext.as_slice())
}

} // verus!
