use lattice_rpc::entity::WasmCloudEntity;
use lattice_rpc::invocation::{is_trusted, judge, Invocation, ValidationError};
use lattice_rpc::token::{ClaimsMetadata, HostKey, InvocationClaims, TokenValidation};
use wascap::jwt::Claims;
use wascap::prelude::KeyPair;

fn signed_call(hostkey: &KeyPair) -> Invocation {
    Invocation::new(
        &HostKey::from_seed(&hostkey.seed().unwrap()).unwrap(),
        WasmCloudEntity::actor("testing"),
        WasmCloudEntity::capability("Vxxx", "wasmcloud:messaging", "default"),
        "OP_TESTING",
        vec![1, 2, 3, 4],
    )
    .unwrap()
}

fn resigned(
    hostkey: &KeyPair,
    inv: &Invocation,
    not_before: Option<u64>,
    expires: Option<u64>,
    target_url: &str,
    origin_url: &str,
    hash: &str,
) -> Invocation {
    let claims = Claims::<wascap::jwt::Invocation>::with_dates(
        inv.host_id.clone(),
        inv.id.clone(),
        not_before,
        expires,
        target_url,
        origin_url,
        hash,
    );
    Invocation {
        origin: inv.origin.clone(),
        target: inv.target.clone(),
        operation: inv.operation.clone(),
        msg: inv.msg.clone(),
        id: inv.id.clone(),
        encoded_claims: claims.encode(hostkey).unwrap(),
        host_id: inv.host_id.clone(),
    }
}

fn good_status() -> TokenValidation {
    TokenValidation {
        expired: false,
        cannot_use_yet: false,
        signature_valid: true,
    }
}

fn faithful_claims(inv: &Invocation) -> InvocationClaims {
    InvocationClaims {
        subject: inv.id.clone(),
        issuer: inv.host_id.clone(),
        expires: None,
        not_before: None,
        metadata: Some(ClaimsMetadata {
            target_url: inv.target_url(),
            origin_url: inv.origin_url(),
            invocation_hash: inv.hash(),
        }),
    }
}

#[test]
fn fresh_invocation_validates_for_its_own_host() {
    let hostkey = KeyPair::new_server();
    let inv = signed_call(&hostkey);
    assert_eq!(inv.validate_antiforgery(vec![hostkey.public_key()]), Ok(()));
}

#[test]
fn fresh_invocation_validates_among_several_trusted_hosts() {
    let hostkey = KeyPair::new_server();
    let other = KeyPair::new_server();
    let inv = signed_call(&hostkey);
    assert_eq!(
        inv.validate_antiforgery(vec![other.public_key(), hostkey.public_key()]),
        Ok(())
    );
}

#[test]
fn tampered_target_is_a_hash_mismatch() {
    let hostkey = KeyPair::new_server();
    let mut inv = signed_call(&hostkey);
    inv.target = WasmCloudEntity::actor("BADACTOR-EXFILTRATOR");
    assert_eq!(
        inv.validate_antiforgery(vec![hostkey.public_key()]),
        Err(ValidationError::HashMismatch)
    );
}

#[test]
fn tampered_origin_is_a_hash_mismatch() {
    let hostkey = KeyPair::new_server();
    let mut inv = signed_call(&hostkey);
    inv.origin = WasmCloudEntity::actor("MSOMEONEELSE");
    assert_eq!(
        inv.validate_antiforgery(vec![hostkey.public_key()]),
        Err(ValidationError::HashMismatch)
    );
}

#[test]
fn tampered_operation_is_a_hash_mismatch() {
    let hostkey = KeyPair::new_server();
    let mut inv = signed_call(&hostkey);
    inv.operation = "OP_OTHER".to_string();
    assert_eq!(
        inv.validate_antiforgery(vec![hostkey.public_key()]),
        Err(ValidationError::HashMismatch)
    );
}

#[test]
fn tampered_payload_is_a_hash_mismatch() {
    let hostkey = KeyPair::new_server();
    let mut inv = signed_call(&hostkey);
    inv.msg = vec![5, 4, 3, 2];
    assert_eq!(
        inv.validate_antiforgery(vec![hostkey.public_key()]),
        Err(ValidationError::HashMismatch)
    );
}

#[test]
fn unknown_host_is_an_untrusted_issuer() {
    let hostkey = KeyPair::new_server();
    let inv = signed_call(&hostkey);
    assert_eq!(
        inv.validate_antiforgery(vec!["NOTGOINGTOWORK".to_string()]),
        Err(ValidationError::UntrustedIssuer)
    );
    assert_eq!(
        inv.validate_antiforgery(vec![]),
        Err(ValidationError::UntrustedIssuer)
    );
}

#[test]
fn garbage_token_is_a_bad_signature() {
    let hostkey = KeyPair::new_server();
    let mut inv = signed_call(&hostkey);
    inv.encoded_claims = "not a token".to_string();
    assert_eq!(
        inv.validate_antiforgery(vec![hostkey.public_key()]),
        Err(ValidationError::BadSignature)
    );
    inv.encoded_claims = String::new();
    assert_eq!(
        inv.validate_antiforgery(vec![hostkey.public_key()]),
        Err(ValidationError::BadSignature)
    );
}

#[test]
fn token_signed_by_another_key_is_a_bad_signature() {
    let hostkey = KeyPair::new_server();
    let forger = KeyPair::new_server();
    let inv = signed_call(&hostkey);
    let forged = resigned(
        &forger,
        &inv,
        None,
        None,
        &inv.target_url(),
        &inv.origin_url(),
        &inv.hash(),
    );
    assert_eq!(
        forged.validate_antiforgery(vec![hostkey.public_key()]),
        Err(ValidationError::BadSignature)
    );
}

#[test]
fn expired_token_is_rejected_as_expired() {
    let hostkey = KeyPair::new_server();
    let inv = signed_call(&hostkey);
    let old = resigned(
        &hostkey,
        &inv,
        None,
        Some(1),
        &inv.target_url(),
        &inv.origin_url(),
        &inv.hash(),
    );
    assert_eq!(
        old.validate_antiforgery(vec![hostkey.public_key()]),
        Err(ValidationError::Expired)
    );
}

#[test]
fn token_from_the_future_is_not_yet_valid() {
    let hostkey = KeyPair::new_server();
    let inv = signed_call(&hostkey);
    let early = resigned(
        &hostkey,
        &inv,
        Some(32_503_680_000),
        None,
        &inv.target_url(),
        &inv.origin_url(),
        &inv.hash(),
    );
    assert_eq!(
        early.validate_antiforgery(vec![hostkey.public_key()]),
        Err(ValidationError::NotYetValid)
    );
}

#[test]
fn token_without_metadata_is_rejected() {
    let hostkey = KeyPair::new_server();
    let mut inv = signed_call(&hostkey);
    let mut claims = Claims::<wascap::jwt::Invocation>::new(
        inv.host_id.clone(),
        inv.id.clone(),
        &inv.target_url(),
        &inv.origin_url(),
        &inv.hash(),
    );
    claims.metadata = None;
    inv.encoded_claims = claims.encode(&hostkey).unwrap();
    assert_eq!(
        inv.validate_antiforgery(vec![hostkey.public_key()]),
        Err(ValidationError::MissingMetadata)
    );
}

#[test]
fn changed_id_is_a_subject_mismatch() {
    let hostkey = KeyPair::new_server();
    let mut inv = signed_call(&hostkey);
    inv.id = "another-id".to_string();
    assert_eq!(
        inv.validate_antiforgery(vec![hostkey.public_key()]),
        Err(ValidationError::SubjectMismatch)
    );
}

#[test]
fn changed_host_is_an_issuer_mismatch() {
    let hostkey = KeyPair::new_server();
    let other = KeyPair::new_server();
    let mut inv = signed_call(&hostkey);
    inv.host_id = other.public_key();
    assert_eq!(
        inv.validate_antiforgery(vec![hostkey.public_key(), other.public_key()]),
        Err(ValidationError::IssuerMismatch)
    );
}

#[test]
fn token_for_another_target_url_is_a_url_mismatch() {
    let hostkey = KeyPair::new_server();
    let inv = signed_call(&hostkey);
    let elsewhere = resigned(
        &hostkey,
        &inv,
        None,
        None,
        "wasmbus://elsewhere/OP_TESTING",
        &inv.origin_url(),
        &inv.hash(),
    );
    assert_eq!(
        elsewhere.validate_antiforgery(vec![hostkey.public_key()]),
        Err(ValidationError::UrlMismatch)
    );
}

#[test]
fn token_for_another_origin_url_is_a_url_mismatch() {
    let hostkey = KeyPair::new_server();
    let inv = signed_call(&hostkey);
    let elsewhere = resigned(
        &hostkey,
        &inv,
        None,
        None,
        &inv.target_url(),
        "wasmbus://MSOMEONE",
        &inv.hash(),
    );
    assert_eq!(
        elsewhere.validate_antiforgery(vec![hostkey.public_key()]),
        Err(ValidationError::UrlMismatch)
    );
}

#[test]
fn operation_moved_into_the_payload_keeps_the_hash_and_fails_on_the_url() {
    let hostkey = KeyPair::new_server();
    let signed = Invocation::new(
        &HostKey::from_seed(&hostkey.seed().unwrap()).unwrap(),
        WasmCloudEntity::actor("MA"),
        WasmCloudEntity::actor("MB"),
        "",
        b"xxabc".to_vec(),
    )
    .unwrap();
    let mut moved = Invocation {
        origin: signed.origin.clone(),
        target: signed.target.clone(),
        operation: "x".to_string(),
        msg: b"abc".to_vec(),
        id: signed.id.clone(),
        encoded_claims: signed.encoded_claims.clone(),
        host_id: signed.host_id.clone(),
    };
    assert_eq!(moved.hash(), signed.hash());
    assert_eq!(
        moved.validate_antiforgery(vec![hostkey.public_key()]),
        Err(ValidationError::UrlMismatch)
    );
    moved.msg = b"abd".to_vec();
    assert_eq!(
        moved.validate_antiforgery(vec![hostkey.public_key()]),
        Err(ValidationError::HashMismatch)
    );
}

#[test]
fn judge_passes_a_faithful_token() {
    let hostkey = KeyPair::new_server();
    let inv = signed_call(&hostkey);
    let issuers = vec![inv.host_id.clone()];
    assert_eq!(
        judge(&inv, &good_status(), &faithful_claims(&inv), &issuers),
        Ok(())
    );
}

#[test]
fn judge_reports_the_first_failing_check() {
    let hostkey = KeyPair::new_server();
    let inv = signed_call(&hostkey);
    let issuers = vec![inv.host_id.clone()];
    let claims = faithful_claims(&inv);

    let all_bad = TokenValidation {
        expired: true,
        cannot_use_yet: true,
        signature_valid: false,
    };
    assert_eq!(
        judge(&inv, &all_bad, &claims, &issuers),
        Err(ValidationError::BadSignature)
    );
    let late_and_early = TokenValidation {
        expired: true,
        cannot_use_yet: true,
        signature_valid: true,
    };
    assert_eq!(
        judge(&inv, &late_and_early, &claims, &issuers),
        Err(ValidationError::Expired)
    );
    let early = TokenValidation {
        expired: false,
        cannot_use_yet: true,
        signature_valid: true,
    };
    assert_eq!(
        judge(&inv, &early, &claims, &issuers),
        Err(ValidationError::NotYetValid)
    );

    let mut bare = faithful_claims(&inv);
    bare.metadata = None;
    bare.subject = "x".to_string();
    assert_eq!(
        judge(&inv, &good_status(), &bare, &issuers),
        Err(ValidationError::MissingMetadata)
    );

    let mut all_wrong = faithful_claims(&inv);
    all_wrong.subject = "x".to_string();
    all_wrong.issuer = "y".to_string();
    all_wrong.metadata = Some(ClaimsMetadata {
        target_url: "t".to_string(),
        origin_url: "o".to_string(),
        invocation_hash: "h".to_string(),
    });
    assert_eq!(
        judge(&inv, &good_status(), &all_wrong, &issuers),
        Err(ValidationError::HashMismatch)
    );
    all_wrong.metadata = Some(ClaimsMetadata {
        target_url: "t".to_string(),
        origin_url: "o".to_string(),
        invocation_hash: inv.hash(),
    });
    assert_eq!(
        judge(&inv, &good_status(), &all_wrong, &issuers),
        Err(ValidationError::SubjectMismatch)
    );
    all_wrong.subject = inv.id.clone();
    assert_eq!(
        judge(&inv, &good_status(), &all_wrong, &issuers),
        Err(ValidationError::IssuerMismatch)
    );
    all_wrong.issuer = inv.host_id.clone();
    assert_eq!(
        judge(&inv, &good_status(), &all_wrong, &vec![]),
        Err(ValidationError::UntrustedIssuer)
    );
    assert_eq!(
        judge(&inv, &good_status(), &all_wrong, &issuers),
        Err(ValidationError::UrlMismatch)
    );
}

#[test]
fn judge_rejects_a_hash_in_lower_case() {
    let hostkey = KeyPair::new_server();
    let inv = signed_call(&hostkey);
    let issuers = vec![inv.host_id.clone()];
    let mut claims = faithful_claims(&inv);
    claims.metadata = Some(ClaimsMetadata {
        target_url: inv.target_url(),
        origin_url: inv.origin_url(),
        invocation_hash: inv.hash().to_lowercase(),
    });
    assert_eq!(
        judge(&inv, &good_status(), &claims, &issuers),
        Err(ValidationError::HashMismatch)
    );
}

#[test]
fn is_trusted_looks_for_the_exact_key() {
    let issuers = vec!["NA".to_string(), "NB".to_string()];
    assert!(is_trusted(&issuers, "NA"));
    assert!(is_trusted(&issuers, "NB"));
    assert!(!is_trusted(&issuers, "N"));
    assert!(!is_trusted(&issuers, "na"));
    assert!(!is_trusted(&vec![], "NA"));
}
