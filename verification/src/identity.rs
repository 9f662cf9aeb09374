//! Key material and hashes.

use crate::error::TestMediatorError;
use crate::text::appended;
use vstd::prelude::*;

verus! {

/// A JWT signing key.
#[verifier::external_type_specification]
#[verifier::external_body]
pub struct ExEncodingKey(jsonwebtoken::EncodingKey);

/// A JWT verification key.
#[verifier::external_type_specification]
#[verifier::external_body]
pub struct ExDecodingKey(jsonwebtoken::DecodingKey);

/// A private key that belongs to a DID.
#[verifier::external_type_specification]
#[verifier::external_body]
pub struct ExSecret(affinidi_secrets_resolver::secrets::Secret);

/// Whether `c` is a lower-case hexadecimal digit.
pub open spec fn is_hex_digit(c: char) -> bool {
    '0' <= c <= '9' || 'a' <= c <= 'f'
}

/// Whether `s` consists of `n` lower-case hexadecimal digits.
pub open spec fn is_hex(s: Seq<char>, n: nat) -> bool {
    s.len() == n && forall|i: int| 0 <= i < n ==> is_hex_digit(#[trigger] s[i])
}

/// The SHA-256 digest of a text's UTF-8 bytes, in hexadecimal.
pub uninterp spec fn sha256_hex(text: Seq<char>) -> Seq<char>;

/// `sha256::digest` of a string slice: the SHA-256 digest of its bytes, written as 64 lower-case
/// hexadecimal digits. The digest itself is not stated.
#[verifier::external_body]
pub(crate) fn sha256_digest(text: &str) -> (hash: String)
    ensures
        hash@ == sha256_hex(text@),
        is_hex(hash@, 64),
{
    sha256::digest(text)
}

/// The hash by which accounts, permissions and queues know a DID.
pub fn did_hash(did: &str) -> (hash: String)
    ensures
        hash@ == sha256_hex(did@),
        is_hex(hash@, 64),
{
    sha256_digest(did)
}

/// Whether `id` is a random identifier in hexadecimal: 32 digits, of which the thirteenth gives the
/// version and the seventeenth the variant.
pub open spec fn is_random_id(id: Seq<char>) -> bool {
    &&& is_hex(id, 32)
    &&& id[12] == '4'
    &&& id[16] == '8' || id[16] == '9' || id[16] == 'a' || id[16] == 'b'
}

/// Whether `did` is that of an administrator who never signs anything: a fixed start, and a random
/// identifier.
pub open spec fn is_opaque_admin_did(did: Seq<char>) -> bool {
    exists|id: Seq<char>| #[trigger] is_random_id(id) && did == "did:key:z6Mk"@ + id
}

/// `uuid::Uuid::new_v4`, formatted by `simple`: a random identifier of 32 lower-case hexadecimal
/// digits, of which the thirteenth gives the version and the seventeenth the variant. Which one
/// comes is left to chance.
#[verifier::external_body]
fn random_uuid() -> (id: String)
    ensures
        is_random_id(id@),
{
    uuid::Uuid::new_v4().simple().to_string()
}

/// The DID of an administrator who never signs anything, from an identifier.
pub fn opaque_admin_did(id: &str) -> (did: String)
    ensures
        did@ == "did:key:z6Mk"@ + id@,
{
    appended("did:key:z6Mk", id)
}

/// A fresh DID for an administrator who never signs anything.
pub fn random_admin_did() -> (did: String)
    ensures
        is_opaque_admin_did(did@),
{
    let id = random_uuid();
    opaque_admin_did(id.as_str())
}

/// The public key in a PKCS#8 document of an Ed25519 key pair, or the text of the error.
pub uninterp spec fn pkcs8_public_key(document: Seq<u8>) -> Result<Seq<u8>, Seq<char>>;

/// The view of a key that was read, or of the text of an error.
pub open spec fn key_view(key: Result<Vec<u8>, String>) -> Result<Seq<u8>, Seq<char>> {
    match key {
        Ok(k) => Ok(k@),
        Err(e) => Err(e@),
    }
}

/// `ring::signature::Ed25519KeyPair::from_pkcs8`, and `public_key` of the pair: the public key of
/// the document, 32 bytes long, or the `Display` text of the error. Which documents are accepted
/// is not stated.
#[verifier::external_body]
fn public_key_of_pkcs8(document: &Vec<u8>) -> (key: Result<Vec<u8>, String>)
    ensures
        key_view(key) == pkcs8_public_key(document@),
        key matches Ok(k) ==> k@.len() == 32,
{
    match ring::signature::Ed25519KeyPair::from_pkcs8(document) {
        Ok(pair) => Ok(ring::signature::KeyPair::public_key(&pair).as_ref().to_vec()),
        Err(e) => Err(e.to_string()),
    }
}

/// `ring::signature::Ed25519KeyPair::generate_pkcs8` with the system's random numbers: the PKCS#8
/// document of a fresh key pair, which holds the public key and which `from_pkcs8` accepts, or the
/// `Display` text of the error. Which key pair comes is left to chance.
#[verifier::external_body]
fn generate_pkcs8() -> (document: Result<Vec<u8>, String>)
    ensures
        document matches Ok(d) ==> pkcs8_public_key(d@) is Ok,
{
    match ring::signature::Ed25519KeyPair::generate_pkcs8(&ring::rand::SystemRandom::new()) {
        Ok(document) => Ok(document.as_ref().to_vec()),
        Err(e) => Err(e.to_string()),
    }
}

/// The JWT signing key of an Ed25519 private key in DER.
pub uninterp spec fn ed_encoding_key(der: Seq<u8>) -> jsonwebtoken::EncodingKey;

/// `jsonwebtoken::EncodingKey::from_ed_der`: the signing key that holds these bytes.
#[verifier::external_body]
fn encoding_key(der: &Vec<u8>) -> (key: jsonwebtoken::EncodingKey)
    ensures
        key == ed_encoding_key(der@),
{
    jsonwebtoken::EncodingKey::from_ed_der(der)
}

/// The JWT verification key of an Ed25519 public key.
pub uninterp spec fn ed_decoding_key(der: Seq<u8>) -> jsonwebtoken::DecodingKey;

/// `jsonwebtoken::DecodingKey::from_ed_der`: the verification key that holds these bytes.
#[verifier::external_body]
fn decoding_key(der: &Vec<u8>) -> (key: jsonwebtoken::DecodingKey)
    ensures
        key == ed_decoding_key(der@),
{
    jsonwebtoken::DecodingKey::from_ed_der(der)
}

/// The keys with which tokens are signed and verified.
pub struct JwtKeys {
    pub encoding: jsonwebtoken::EncodingKey,
    pub decoding: jsonwebtoken::DecodingKey,
}

/// Whether `keys` is the outcome for a document whose public key was read as `public_key`: the
/// whole document signs, the public key verifies.
pub open spec fn keys_match<E>(
    document: Seq<u8>,
    public_key: Result<Seq<u8>, Seq<char>>,
    keys: Result<JwtKeys, TestMediatorError<E>>,
) -> bool {
    match public_key {
        Ok(k) => keys matches Ok(pair) && pair.encoding == ed_encoding_key(document)
            && pair.decoding == ed_decoding_key(k),
        Err(t) => keys matches Err(e) && e matches TestMediatorError::JwtKey(text) && text@
            == "ring pkcs8 parse: "@ + t,
    }
}

/// The token keys of a document whose public key was read as `public_key`.
pub fn jwt_keys_of<E>(document: &Vec<u8>, public_key: Result<Vec<u8>, String>) -> (keys: Result<
    JwtKeys,
    TestMediatorError<E>,
>)
    ensures
        keys_match(document@, key_view(public_key), keys),
{
    match public_key {
        Ok(key) => Ok(JwtKeys { encoding: encoding_key(document), decoding: decoding_key(&key) }),
        Err(e) => Err(TestMediatorError::JwtKey(appended("ring pkcs8 parse: ", e.as_str()))),
    }
}

/// The token keys of a PKCS#8 document.
pub fn jwt_keys_from_pkcs8<E>(document: &Vec<u8>) -> (keys: Result<JwtKeys, TestMediatorError<E>>)
    ensures
        keys_match(document@, pkcs8_public_key(document@), keys),
{
    jwt_keys_of(document, public_key_of_pkcs8(document))
}

/// The token keys of a document that was generated, or the error where none was.
pub fn jwt_keys_from<E>(generated: Result<Vec<u8>, String>) -> (keys: Result<
    JwtKeys,
    TestMediatorError<E>,
>)
    ensures
        match generated {
            Ok(d) => keys_match(d@, pkcs8_public_key(d@), keys),
            Err(t) => keys matches Err(e) && e matches TestMediatorError::JwtKey(text) && text@
                == "ring pkcs8 generate: "@ + t@,
        },
{
    match generated {
        Ok(document) => jwt_keys_from_pkcs8(&document),
        Err(e) => Err(TestMediatorError::JwtKey(appended("ring pkcs8 generate: ", e.as_str()))),
    }
}

/// Generates the keys with which tokens are signed and verified. The verification key belongs to
/// the key pair that signs; the only error is that no key pair could be generated.
pub fn generate_jwt_keys<E>() -> (keys: Result<JwtKeys, TestMediatorError<E>>)
    ensures
        match keys {
            Ok(pair) => exists|d: Seq<u8>| #[trigger]
                pkcs8_public_key(d) is Ok && pair.encoding == ed_encoding_key(d) && pair.decoding
                    == ed_decoding_key(pkcs8_public_key(d)->Ok_0),
            Err(e) => e matches TestMediatorError::JwtKey(text) && exists|t: Seq<char>| #[trigger]
                ("ring pkcs8 generate: "@ + t) == text@,
        },
{
    let generated = generate_pkcs8();
    let ghost outcome = key_view(generated);
    let keys = jwt_keys_from(generated);
    proof {
        match outcome {
            Ok(d) => {
                assert(pkcs8_public_key(d) is Ok);
            },
            Err(t) => {
                assert(keys->Err_0->JwtKey_0@ == "ring pkcs8 generate: "@ + t);
            },
        }
    }
    keys
}

} // verus!
