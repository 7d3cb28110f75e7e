//! Envelope codec.
//!
//! Decodes and decrypts the legacy password-based envelope layout
//! `MAGIC("Salted__") | SALT(8 bytes) | CIPHERTEXT`, carried as base64 text.
//! The symmetric key and IV are derived from a passphrase and the embedded
//! salt by iterated 16-byte digest expansion (three digests concatenated
//! give the 32-byte key followed by the 16-byte IV); the ciphertext is
//! AES-256-CBC with standard block padding. The derivation must match the
//! encrypting service byte for byte, so it is pinned down here as a spec
//! function and the executable code is proved against it.

use vstd::prelude::*;

use crate::error::ExtractorError;

verus! {

/// The 16-byte digest the key derivation iterates (MD5).
pub uninterp spec fn md5_of(data: Seq<u8>) -> Seq<u8>;

/// What base64 decoding yields on a given text, `None` when the text is
/// not decodable.
pub uninterp spec fn base64_decoded(text: Seq<char>) -> Option<Seq<u8>>;

/// The base64 text that encodes the given bytes.
pub uninterp spec fn base64_encoded(data: Seq<u8>) -> Seq<char>;

/// What AES-256-CBC decryption with standard padding yields, `None` when
/// the padding check or the decryption itself fails.
pub uninterp spec fn aes256cbc_decrypted(key: Seq<u8>, iv: Seq<u8>, data: Seq<u8>) -> Option<
    Seq<u8>,
>;

/// The AES-256-CBC encryption (with standard padding) of the given bytes.
pub uninterp spec fn aes256cbc_encrypted(key: Seq<u8>, iv: Seq<u8>, data: Seq<u8>) -> Seq<u8>;

/// Computes the 16-byte digest of `data`.
///
/// Relies on `openssl::hash::hash` with `MessageDigest::md5`: the MD5
/// digest is 16 bytes and a total function of the input; with this fixed,
/// built-in digest the call succeeds (short of the library failing to
/// allocate, which aborts here).
#[verifier::external_body]
fn md5_digest(data: &[u8]) -> (r: Vec<u8>)
    ensures
        r@ == md5_of(data@),
        r@.len() == 16,
{
    openssl::hash::hash(openssl::hash::MessageDigest::md5(), data)
        .expect("the MD5 digest is built in and cannot fail")
        .to_vec()
}

/// Decodes base64 text to bytes.
///
/// Relies on `openssl::base64::decode_block`: decoding depends on the text
/// alone and fails exactly on text that is not valid base64 (the length
/// bound keeps the input below the library's hard limit).
#[verifier::external_body]
fn base64_decode_block(text: &str) -> (r: Option<Vec<u8>>)
    requires
        text@.len() <= 0x0800_0000,
    ensures
        r matches Some(v) ==> base64_decoded(text@) == Some(v@) && v@.len() <= 3 * text@.len()
            + 3,
        r is None ==> base64_decoded(text@) is None,
{
    match openssl::base64::decode_block(text) {
        Ok(v) => Some(v),
        Err(_) => None,
    }
}

/// Encodes bytes as base64 text.
///
/// Relies on `openssl::base64::encode_block`: the encoding depends on the
/// bytes alone, and `decode_block` decodes it back to exactly those bytes
/// (the length bound keeps the input below the library's hard limit).
#[verifier::external_body]
pub(crate) fn base64_encode_block(data: &[u8]) -> (r: String)
    requires
        data@.len() <= 0x0800_0000,
    ensures
        r@ == base64_encoded(data@),
        base64_decoded(r@) == Some(data@),
{
    openssl::base64::encode_block(data)
}

/// Decrypts AES-256-CBC data with standard block padding.
///
/// Relies on `openssl::symm::decrypt` with `Cipher::aes_256_cbc`: the
/// result depends on key, IV and data alone; the call fails when the
/// padding is invalid.
#[verifier::external_body]
fn aes_256_cbc_decrypt(key: &[u8], iv: &[u8], data: &[u8]) -> (r: Option<Vec<u8>>)
    requires
        key@.len() == 32,
        iv@.len() == 16,
        data@.len() <= 0x4000_0000,
    ensures
        r matches Some(v) ==> aes256cbc_decrypted(key@, iv@, data@) == Some(v@),
        r is None ==> aes256cbc_decrypted(key@, iv@, data@) is None,
{
    match openssl::symm::decrypt(openssl::symm::Cipher::aes_256_cbc(), key, Some(iv), data) {
        Ok(v) => Some(v),
        Err(_) => None,
    }
}

/// Encrypts bytes with AES-256-CBC and standard block padding.
///
/// Relies on `openssl::symm::encrypt` with `Cipher::aes_256_cbc`: the
/// result depends on key, IV and data alone, padding extends the data to
/// the next block boundary, and `decrypt` with the same key and IV yields
/// the original bytes back. With a 32-byte key, a 16-byte IV and data
/// within the length bound, the call succeeds (short of the library
/// failing to allocate, which aborts here).
#[verifier::external_body]
fn aes_256_cbc_encrypt(key: &[u8], iv: &[u8], data: &[u8]) -> (r: Vec<u8>)
    requires
        key@.len() == 32,
        iv@.len() == 16,
        data@.len() <= 0x4000_0000,
    ensures
        r@ == aes256cbc_encrypted(key@, iv@, data@),
        r@.len() == data@.len() + 16 - (data@.len() % 16),
        aes256cbc_decrypted(key@, iv@, r@) == Some(data@),
{
    openssl::symm::encrypt(openssl::symm::Cipher::aes_256_cbc(), key, Some(iv), data)
        .expect("AES-256-CBC encryption with a sized key and IV cannot fail")
}

/// Turns bytes into a string when they are valid UTF-8.
///
/// Relies on `String::from_utf8`: it succeeds exactly on valid UTF-8 and
/// returns the string those bytes encode.
#[verifier::external_body]
fn utf8_to_string(bytes: Vec<u8>) -> (r: Option<String>)
    ensures
        r matches Some(s) ==> vstd::utf8::valid_utf8(bytes@) && s@ == vstd::utf8::decode_utf8(
            bytes@,
        ),
        r is None ==> !vstd::utf8::valid_utf8(bytes@),
{
    match String::from_utf8(bytes) {
        Ok(s) => Some(s),
        Err(_) => None,
    }
}

/// The fixed 8-byte magic prefix, the ASCII bytes of `Salted__`.
pub open spec fn salted_magic() -> Seq<u8> {
    seq![0x53u8, 0x61u8, 0x6cu8, 0x74u8, 0x65u8, 0x64u8, 0x5fu8, 0x5fu8]
}

/// A well-formed envelope: at least 16 bytes, opening with the magic.
pub open spec fn envelope_well_formed(env: Seq<u8>) -> bool {
    env.len() >= 16 && env.subrange(0, 8) == salted_magic()
}

/// The salt embedded in a well-formed envelope.
pub open spec fn envelope_salt(env: Seq<u8>) -> Seq<u8> {
    env.subrange(8, 16)
}

/// The ciphertext part of a well-formed envelope.
pub open spec fn envelope_body(env: Seq<u8>) -> Seq<u8> {
    env.subrange(16, env.len() as int)
}

/// The digest-expansion stream: three chained 16-byte digests, 48 bytes.
pub open spec fn kdf_stream(pass: Seq<u8>, salt: Seq<u8>) -> Seq<u8> {
    let d1 = md5_of(pass + salt);
    let d2 = md5_of(d1 + pass + salt);
    let d3 = md5_of(d2 + pass + salt);
    d1 + d2 + d3
}

/// The 32-byte key derived from a passphrase and a salt.
pub open spec fn evp_key(pass: Seq<u8>, salt: Seq<u8>) -> Seq<u8> {
    kdf_stream(pass, salt).subrange(0, 32)
}

/// The 16-byte IV derived from a passphrase and a salt.
pub open spec fn evp_iv(pass: Seq<u8>, salt: Seq<u8>) -> Seq<u8> {
    kdf_stream(pass, salt).subrange(32, 48)
}

/// The bytes of `a` followed by the bytes of `b`.
#[verifier::loop_isolation(false)]
pub fn concat_bytes(a: &[u8], b: &[u8]) -> (r: Vec<u8>)
    ensures
        r@ == a@ + b@,
{
    let mut r: Vec<u8> = Vec::new();
    r.extend_from_slice(a);
    r.extend_from_slice(b);
    proof {
        assert(r@ =~= a@ + b@);
    }
    r
}

/// Derives the AES-256-CBC key and IV from a passphrase and an 8-byte salt
/// by iterated digest expansion, exactly as the encrypting service does.
pub fn derive_key_iv(pass: &[u8], salt: &[u8]) -> (r: (Vec<u8>, Vec<u8>))
    ensures
        r.0@ == evp_key(pass@, salt@),
        r.1@ == evp_iv(pass@, salt@),
        r.0@.len() == 32,
        r.1@.len() == 16,
{
    let pass_salt = concat_bytes(pass, salt);
    let d1 = md5_digest(pass_salt.as_slice());
    let seed2 = concat_bytes(d1.as_slice(), pass_salt.as_slice());
    let d2 = md5_digest(seed2.as_slice());
    let seed3 = concat_bytes(d2.as_slice(), pass_salt.as_slice());
    let d3 = md5_digest(seed3.as_slice());
    proof {
        assert(d1@ + pass_salt@ =~= d1@ + pass@ + salt@);
        assert(d2@ + pass_salt@ =~= d2@ + pass@ + salt@);
    }
    let key = concat_bytes(d1.as_slice(), d2.as_slice());
    proof {
        assert(key@ =~= kdf_stream(pass@, salt@).subrange(0, 32));
        assert(d3@ =~= kdf_stream(pass@, salt@).subrange(32, 48));
    }
    (key, d3)
}

/// What decrypting a raw envelope yields, by case: a malformed envelope
/// is a `Format` error, a failed decryption a `Crypto` error, and a
/// successful decryption the plaintext.
pub open spec fn spec_decrypt_envelope(env: Seq<u8>, pass: Seq<u8>) -> Result<
    Seq<u8>,
    ExtractorError,
> {
    if !envelope_well_formed(env) {
        Err(ExtractorError::Format)
    } else {
        match envelope_decrypted(env, pass) {
            Some(p) => Ok(p),
            None => Err(ExtractorError::Crypto),
        }
    }
}

/// What decrypting a well-formed envelope with a passphrase yields:
/// the AES-256-CBC decryption of its body under the derived key and IV.
pub open spec fn envelope_decrypted(env: Seq<u8>, pass: Seq<u8>) -> Option<Seq<u8>> {
    aes256cbc_decrypted(
        evp_key(pass, envelope_salt(env)),
        evp_iv(pass, envelope_salt(env)),
        envelope_body(env),
    )
}

/// Whether the first 8 bytes of `env` are the `Salted__` magic.
#[verifier::loop_isolation(false)]
fn check_magic(env: &[u8]) -> (r: bool)
    requires
        env@.len() >= 8,
    ensures
        r == (env@.subrange(0, 8) == salted_magic()),
{
    let magic: [u8; 8] = [0x53, 0x61, 0x6c, 0x74, 0x65, 0x64, 0x5f, 0x5f];
    let mut i: usize = 0;
    while i < 8
        invariant
            i <= 8,
            forall|k: int| 0 <= k < i ==> env@[k] == salted_magic()[k],
        decreases 8 - i,
    {
        if env[i] != magic[i] {
            proof {
                assert(env@.subrange(0, 8)[i as int] == env@[i as int]);
            }
            return false;
        }
        i = i + 1;
    }
    proof {
        assert(env@.subrange(0, 8) =~= salted_magic());
    }
    true
}

/// Decrypts a raw envelope: checks the magic prefix and length, derives
/// the key and IV from the passphrase and the embedded salt, and decrypts
/// the remaining bytes.
///
/// The result is exactly what `spec_decrypt_envelope` describes: a
/// malformed envelope (shorter than 16 bytes, or with a wrong magic) is
/// rejected with a `Format` error and never a `Crypto` one; a well-formed
/// envelope yields its decryption, or a `Crypto` error exactly when the
/// decryption fails.
#[verifier::loop_isolation(false)]
pub fn decrypt_envelope(env: &[u8], pass: &[u8]) -> (r: Result<Vec<u8>, ExtractorError>)
    requires
        env@.len() <= 0x4000_0000,
    ensures
        match r {
            Ok(p) => spec_decrypt_envelope(env@, pass@) == Ok::<_, ExtractorError>(p@),
            Err(e) => spec_decrypt_envelope(env@, pass@) == Err::<Seq<u8>, ExtractorError>(e),
        },
        !envelope_well_formed(env@) ==> r == Err::<Vec<u8>, ExtractorError>(ExtractorError::Format),
{
    if env.len() < 16 {
        return Err(ExtractorError::Format);
    }
    if !check_magic(env) {
        return Err(ExtractorError::Format);
    }
    let (_, tail) = env.split_at(8);
    let (salt, body) = tail.split_at(8);
    proof {
        assert(salt@ =~= envelope_salt(env@));
        assert(body@ =~= envelope_body(env@));
    }
    let (key, iv) = derive_key_iv(pass, salt);
    match aes_256_cbc_decrypt(key.as_slice(), iv.as_slice(), body) {
        Some(p) => Ok(p),
        None => Err(ExtractorError::Crypto),
    }
}

/// What decrypting base64-carried envelope text yields, by case: text that
/// does not decode or whose bytes are not a well-formed envelope is a
/// `Format` error; a failed decryption is a `Crypto` error.
pub open spec fn spec_decrypt_envelope_b64(text: Seq<char>, pass: Seq<u8>) -> Result<
    Seq<u8>,
    ExtractorError,
> {
    match base64_decoded(text) {
        Some(env) => spec_decrypt_envelope(env, pass),
        None => Err(ExtractorError::Format),
    }
}

/// Decodes base64 envelope text and decrypts it with the passphrase.
///
/// The result is exactly what `spec_decrypt_envelope_b64` describes: text
/// that does not decode, or whose decoded bytes are not a well-formed
/// envelope, is rejected with a `Format` error; a well-formed envelope
/// yields its decryption, or a `Crypto` error exactly when the decryption
/// fails.
pub fn decrypt_envelope_b64(text: &str, pass: &[u8]) -> (r: Result<Vec<u8>, ExtractorError>)
    requires
        text@.len() <= 0x0800_0000,
    ensures
        match r {
            Ok(p) => spec_decrypt_envelope_b64(text@, pass@) == Ok::<_, ExtractorError>(p@),
            Err(e) => spec_decrypt_envelope_b64(text@, pass@) == Err::<Seq<u8>, ExtractorError>(e),
        },
{
    let env = match base64_decode_block(text) {
        Some(v) => v,
        None => { return Err(ExtractorError::Format); },
    };
    decrypt_envelope(env.as_slice(), pass)
}

/// What the full url decryption yields: the decrypted bytes interpreted as
/// UTF-8 text, a `Format` error when they are not valid UTF-8.
pub open spec fn spec_decrypt_url(text: Seq<char>, pass: Seq<u8>) -> Result<
    Seq<char>,
    ExtractorError,
> {
    match spec_decrypt_envelope_b64(text, pass) {
        Ok(p) => if vstd::utf8::valid_utf8(p) {
            Ok(vstd::utf8::decode_utf8(p))
        } else {
            Err(ExtractorError::Format)
        },
        Err(e) => Err(e),
    }
}

/// Decrypts an encoded source list: base64 text holding an encrypted
/// envelope, decrypted with the passphrase bytes and read back as UTF-8
/// text (the manifest's decrypted JSON).
///
/// The result is exactly what `spec_decrypt_url` describes, a pure
/// function of the text and the passphrase: bad base64, a malformed
/// envelope and non-UTF-8 plaintext are `Format` errors; a failed
/// decryption is a `Crypto` error; anything else succeeds with the
/// decrypted text.
pub fn decrypt_url(encrypted_url: &str, key: &[u8]) -> (r: Result<String, ExtractorError>)
    requires
        encrypted_url@.len() <= 0x0800_0000,
    ensures
        match r {
            Ok(s) => spec_decrypt_url(encrypted_url@, key@) == Ok::<_, ExtractorError>(s@),
            Err(e) => spec_decrypt_url(encrypted_url@, key@) == Err::<Seq<char>, ExtractorError>(
                e,
            ),
        },
{
    let plain = match decrypt_envelope_b64(encrypted_url, key) {
        Ok(p) => p,
        Err(e) => { return Err(e); },
    };
    match utf8_to_string(plain) {
        Some(s) => Ok(s),
        None => Err(ExtractorError::Format),
    }
}

/// Encrypts plaintext bytes into a base64-carried envelope: magic, the
/// given 8-byte salt, then the AES-256-CBC encryption of the plaintext
/// under the key and IV derived from the passphrase and that salt.
///
/// Decrypting the result with the same passphrase gives the plaintext
/// back byte for byte: the round trip is the contract.
pub fn encrypt_envelope_b64(plain: &[u8], pass: &[u8], salt: &[u8]) -> (r: String)
    requires
        salt@.len() == 8,
        plain@.len() <= 0x0400_0000,
    ensures
        spec_decrypt_envelope_b64(r@, pass@) == Ok::<_, ExtractorError>(plain@),
{
    let (key, iv) = derive_key_iv(pass, salt);
    let ct = aes_256_cbc_encrypt(key.as_slice(), iv.as_slice(), plain);
    let magic: [u8; 8] = [0x53, 0x61, 0x6c, 0x74, 0x65, 0x64, 0x5f, 0x5f];
    let head = concat_bytes(magic.as_slice(), salt);
    let env = concat_bytes(head.as_slice(), ct.as_slice());
    proof {
        assert(env@.subrange(0, 8) =~= salted_magic());
        assert(envelope_salt(env@) =~= salt@);
        assert(envelope_body(env@) =~= ct@);
    }
    base64_encode_block(env.as_slice())
}

/// The UTF-8 encoding of a character sequence takes at most four bytes
/// per character.
proof fn lemma_encode_utf8_len(chars: Seq<char>)
    ensures
        vstd::utf8::encode_utf8(chars).len() <= 4 * chars.len(),
    decreases chars.len(),
{
    if chars.len() > 0 {
        lemma_encode_utf8_len(chars.drop_first());
    }
}

/// Encrypts plaintext into a base64-carried envelope, and promises
/// the round trip: decrypting the result with the same passphrase yields
/// the plaintext back, character for character.
pub fn encrypt_url(plain: &str, pass: &[u8], salt: &[u8]) -> (r: String)
    requires
        salt@.len() == 8,
        plain@.len() <= 0x0100_0000,
    ensures
        spec_decrypt_url(r@, pass@) == Ok::<_, ExtractorError>(plain@),
{
    proof {
        lemma_encode_utf8_len(plain@);
    }
    let bytes = plain.as_bytes();
    let r = encrypt_envelope_b64(bytes, pass, salt);
    proof {
        broadcast use vstd::utf8::encode_utf8_valid_utf8, vstd::utf8::encode_utf8_decode_utf8;

    }
    r
}

/// Any input whose decoded bytes do not open with the `Salted__` magic
/// (or are shorter than 16 bytes) is rejected with a `Format` error and
/// never a `Crypto` one, whatever the remaining content and passphrase.
pub proof fn lemma_magic_rejection(text: Seq<char>, pass: Seq<u8>)
    requires
        base64_decoded(text) matches Some(env) && !envelope_well_formed(env),
    ensures
        spec_decrypt_envelope_b64(text, pass) == Err::<Seq<u8>, ExtractorError>(
            ExtractorError::Format,
        ),
        spec_decrypt_url(text, pass) == Err::<Seq<char>, ExtractorError>(ExtractorError::Format),
{
}

} // verus!
