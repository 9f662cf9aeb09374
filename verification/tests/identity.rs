use mediator::error::TestMediatorError;
use mediator::identity::{
    did_hash, generate_jwt_keys, jwt_keys_from, jwt_keys_from_pkcs8, jwt_keys_of,
    opaque_admin_did, random_admin_did,
};

#[test]
fn jwt_keys_generate() {
    let result = generate_jwt_keys::<()>();
    assert!(result.is_ok(), "JWT key generation should succeed");
}

#[test]
fn generated_keys_belong_together() {
    let keys = generate_jwt_keys::<()>().unwrap();
    let document = keys.encoding.as_bytes();
    // The public key stands at the end of the document.
    let public = document[document.len() - 32..].to_vec();
    assert!(matches!(
        keys.decoding.kind(),
        jsonwebtoken::DecodingKeyKind::SecretOrDer(bytes) if *bytes == public
    ));
}

#[test]
fn a_document_that_is_no_key_is_refused() {
    match jwt_keys_from_pkcs8::<()>(&vec![1, 2, 3]) {
        Err(TestMediatorError::JwtKey(text)) => {
            assert_eq!(text, "ring pkcs8 parse: InvalidEncoding");
        }
        _ => panic!("accepted"),
    }
}

#[test]
fn keys_come_from_the_document_and_its_public_key() {
    let keys = jwt_keys_of::<()>(&vec![7, 8], Ok(vec![9])).unwrap();
    assert_eq!(keys.encoding.as_bytes(), &[7, 8]);
    match jwt_keys_of::<()>(&vec![7, 8], Err("odd".to_string())) {
        Err(e) => assert_eq!(e.message(""), "JWT key generation failed: ring pkcs8 parse: odd"),
        Ok(_) => panic!("accepted"),
    }
    match jwt_keys_from::<()>(Err("odd".to_string())) {
        Err(e) => assert_eq!(e.message(""), "JWT key generation failed: ring pkcs8 generate: odd"),
        Ok(_) => panic!("accepted"),
    }
}

#[test]
fn dids_are_hashed() {
    assert_eq!(
        did_hash("hello"),
        "2cf24dba5fb0a30e26e83b2ac5b9e29e1b161e5c1fa7425e73043362938b9824",
    );
    assert_eq!(did_hash("").len(), 64);
}

#[test]
fn opaque_administrators_have_a_fresh_did() {
    assert_eq!(opaque_admin_did("00ff"), "did:key:z6Mk00ff");
    let did = random_admin_did();
    let id = did.strip_prefix("did:key:z6Mk").unwrap();
    assert_eq!(id.len(), 32);
    assert!(id.chars().all(|c| c.is_ascii_digit() || ('a'..='f').contains(&c)));
    assert_eq!(id.as_bytes()[12], b'4');
    assert!(b"89ab".contains(&id.as_bytes()[16]));
    assert_ne!(did, random_admin_did());
}
