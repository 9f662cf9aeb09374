//! How identities are hashed and made.

use crate::error::TestMediatorError;
use crate::identity::{
    did_hash, generate_jwt_keys, jwt_keys_from, jwt_keys_from_pkcs8, jwt_keys_of, opaque_admin_did,
    random_admin_did, JwtKeys,
};
use vstd::prelude::*;

verus! {

/// A DID is known by its SHA-256 digest, in 64 lower-case hexadecimal digits.
pub proof fn law_dids_are_known_by_their_digest(did: &str, hash: String)
    requires
        call_ensures(did_hash, (did,), hash),
    ensures
        hash@ == crate::identity::sha256_hex(did@),
        hash@.len() == 64,
        forall|i: int|
            0 <= i < 64 ==> 48 <= (#[trigger] hash@[i]) as u32 <= 57 || 97 <= hash@[i] as u32
                <= 102,
{
    assert forall|i: int| 0 <= i < 64 implies 48 <= (#[trigger] hash@[i]) as u32 <= 57 || 97
        <= hash@[i] as u32 <= 102 by {
        assert(crate::identity::is_hex_digit(hash@[i]));
    }
}

/// An administrator who never signs anything has a DID of a fixed start and an identifier; a fresh
/// one has a random identifier of 32 digits, of the fourth version.
pub proof fn law_opaque_administrators_have_an_identifier(id: &str, did: String, fresh: String)
    requires
        call_ensures(opaque_admin_did, (id,), did),
        call_ensures(random_admin_did, (), fresh),
    ensures
        did@ == "did:key:z6Mk"@ + id@,
        fresh@.len() == 44,
        fresh@.take(12) == "did:key:z6Mk"@,
        fresh@[24] == '4',
        forall|i: int|
            12 <= i < 44 ==> 48 <= (#[trigger] fresh@[i]) as u32 <= 57 || 97 <= fresh@[i] as u32
                <= 102,
{
    reveal_strlit("did:key:z6Mk");
    let tail = choose|tail: Seq<char>| #[trigger]
        crate::identity::is_random_id(tail) && fresh@ == "did:key:z6Mk"@ + tail;
    assert(fresh@.take(12) =~= "did:key:z6Mk"@);
    assert(fresh@[24] == tail[12]);
    assert forall|i: int| 12 <= i < 44 implies 48 <= (#[trigger] fresh@[i]) as u32 <= 57 || 97
        <= fresh@[i] as u32 <= 102 by {
        assert(fresh@[i] == tail[i - 12]);
        assert(crate::identity::is_hex_digit(tail[i - 12]));
    }
}

/// The whole document signs, and the public key that was read from it verifies. Where none could be
/// read, the error says why.
pub proof fn law_the_public_key_verifies_what_the_document_signs<E>(
    document: Vec<u8>,
    key: Vec<u8>,
    failure: String,
    keys: Result<JwtKeys, TestMediatorError<E>>,
)
    ensures
        call_ensures(jwt_keys_of::<E>, (&document, Ok(key)), keys) ==> (keys matches Ok(pair)
            && pair.encoding == crate::identity::ed_encoding_key(document@) && pair.decoding
            == crate::identity::ed_decoding_key(key@)),
        call_ensures(jwt_keys_of::<E>, (&document, Err(failure)), keys) ==> (keys matches Err(
            TestMediatorError::JwtKey(text),
        ) && text@ == "ring pkcs8 parse: "@ + failure@),
{
}

/// The keys of a document are those of the public key that it holds, however the document came. A
/// document that could not be generated is an error that says why.
pub proof fn law_keys_belong_to_their_document<E>(
    document: Vec<u8>,
    failure: String,
    keys: Result<JwtKeys, TestMediatorError<E>>,
    generated: Result<JwtKeys, TestMediatorError<E>>,
    none: Result<JwtKeys, TestMediatorError<E>>,
    fresh: Result<JwtKeys, TestMediatorError<E>>,
)
    requires
        call_ensures(jwt_keys_from_pkcs8::<E>, (&document,), keys),
        call_ensures(jwt_keys_from::<E>, (Ok(document),), generated),
        call_ensures(jwt_keys_from::<E>, (Err(failure),), none),
        call_ensures(generate_jwt_keys::<E>, (), fresh),
    ensures
        match crate::identity::pkcs8_public_key(document@) {
            Ok(key) => {
                &&& keys matches Ok(pair) && pair.encoding == crate::identity::ed_encoding_key(
                    document@,
                ) && pair.decoding == crate::identity::ed_decoding_key(key)
                &&& generated == keys
            },
            Err(t) => {
                &&& keys matches Err(TestMediatorError::JwtKey(text)) && text@
                    == "ring pkcs8 parse: "@ + t
                &&& generated matches Err(TestMediatorError::JwtKey(text)) && text@
                    == "ring pkcs8 parse: "@ + t
            },
        },
        none matches Err(TestMediatorError::JwtKey(text)) && text@ == "ring pkcs8 generate: "@
            + failure@,
        fresh matches Ok(pair) ==> exists|d: Seq<u8>| #[trigger]
            crate::identity::pkcs8_public_key(d) is Ok && pair.encoding
                == crate::identity::ed_encoding_key(d) && pair.decoding
                == crate::identity::ed_decoding_key(crate::identity::pkcs8_public_key(d)->Ok_0),
        fresh is Err ==> fresh->Err_0 is JwtKey,
{
}

} // verus!
