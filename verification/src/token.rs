//! Signed claims tokens. Signing, decoding and checking a token is the work of
//! the `wascap` and `nkeys` crates; this module hands plain values to them and
//! takes plain values back.

use vstd::prelude::*;

verus! {

#[verifier::external_type_specification]
#[verifier::external_body]
pub struct ExKeyError(nkeys::error::Error);

#[verifier::external_type_specification]
#[verifier::external_body]
pub struct ExTokenError(wascap::Error);

/// What a check of a token's signature and dates found.
#[derive(Clone, Copy, Debug, PartialEq, Eq)]
pub struct TokenValidation {
    /// The token's expiry date has passed.
    pub expired: bool,
    /// The token's "not before" date is still to come.
    pub cannot_use_yet: bool,
    /// The signature is the issuer's signature of the token's content.
    pub signature_valid: bool,
}

/// What an invocation token says of the call it was signed for.
#[derive(Debug, PartialEq, Eq)]
pub struct ClaimsMetadata {
    pub target_url: String,
    pub origin_url: String,
    pub invocation_hash: String,
}

/// The claims of an invocation token that validation reads.
#[derive(Debug, PartialEq, Eq)]
pub struct InvocationClaims {
    pub subject: String,
    pub issuer: String,
    /// The date after which the token is expired, in seconds since 1970,
    /// where it has one.
    pub expires: Option<u64>,
    /// The date before which the token cannot be used, where it has one.
    pub not_before: Option<u64>,
    pub metadata: Option<ClaimsMetadata>,
}

/// What a `ClaimsMetadata` stands for.
pub struct MetadataView {
    pub target_url: Seq<char>,
    pub origin_url: Seq<char>,
    pub invocation_hash: Seq<char>,
}

/// What an `InvocationClaims` stands for.
pub struct ClaimsView {
    pub subject: Seq<char>,
    pub issuer: Seq<char>,
    pub expires: Option<u64>,
    pub not_before: Option<u64>,
    pub metadata: Option<MetadataView>,
}

impl View for ClaimsMetadata {
    type V = MetadataView;

    open spec fn view(&self) -> MetadataView {
        MetadataView {
            target_url: self.target_url@,
            origin_url: self.origin_url@,
            invocation_hash: self.invocation_hash@,
        }
    }
}

impl View for InvocationClaims {
    type V = ClaimsView;

    open spec fn view(&self) -> ClaimsView {
        ClaimsView {
            subject: self.subject@,
            issuer: self.issuer@,
            expires: self.expires,
            not_before: self.not_before,
            metadata: match self.metadata {
                Some(metadata) => Some(metadata@),
                None => None,
            },
        }
    }
}

/// The claims that a token decodes to, where it decodes at all.
pub uninterp spec fn claims_in_token(token: Seq<char>) -> Option<ClaimsView>;

/// Whether a text is the seed of a key pair.
pub uninterp spec fn is_seed(text: Seq<char>) -> bool;

/// The public key of the key pair that a seed stands for.
pub uninterp spec fn public_key_of(seed: Seq<char>) -> Seq<char>;

/// Whether a token is well formed and carries the signature of its issuer
/// over its content.
pub uninterp spec fn is_well_signed(token: Seq<char>) -> bool;

/// The claims that a host with public key `issuer` signs for the call
/// `subject`: they say what `metadata` says, and they hold no dates.
pub open spec fn signed_claims(
    issuer: Seq<char>,
    subject: Seq<char>,
    metadata: MetadataView,
) -> ClaimsView {
    ClaimsView { subject, issuer, expires: None, not_before: None, metadata: Some(metadata) }
}

/// Calls `uuid::Uuid::new_v4` and writes the identifier out, which `Uuid` does
/// in the hyphenated form of 36 characters. The identifier is random, so
/// nothing else is promised of it.
#[verifier::external_body]
pub(crate) fn fresh_id() -> (id: String)
    ensures
        id@.len() == 36,
{
    uuid::Uuid::new_v4().to_string()
}

/// Calls `nkeys::KeyPair::from_seed`, which decodes the text and refuses one
/// that is no seed, and `KeyPair::public_key` on the key pair. The contract
/// names whether the text is a seed, and the public key of its key pair.
#[verifier::external_body]
pub(crate) fn seed_public_key(seed: &str) -> (outcome: Result<String, nkeys::error::Error>)
    ensures
        outcome is Ok == is_seed(seed@),
        outcome matches Ok(key) ==> key@ == public_key_of(seed@),
{
    Ok(nkeys::KeyPair::from_seed(seed)?.public_key())
}

/// Makes the key pair of `seed` with `nkeys::KeyPair::from_seed`, builds
/// invocation claims with `wascap::jwt::Claims::<Invocation>::new`, which
/// gives them no dates, and signs them with `Claims::encode`. A key pair made
/// from a seed always signs, so the call fails only where the text is no seed.
/// The token is the claims written as JSON and signed: it decodes to the
/// claims that went in. It is well signed where its issuer is the public key
/// of the signing key pair and its subject is not empty, which is what
/// `validate_token` asks of a token. The token also holds the time of signing
/// and a random identifier, so the same claims give different tokens.
#[verifier::external_body]
pub(crate) fn sign_claims(
    seed: &str,
    issuer: &str,
    subject: &str,
    metadata: &ClaimsMetadata,
) -> (outcome: Result<String, wascap::Error>)
    ensures
        outcome is Ok == is_seed(seed@),
        outcome matches Ok(token) ==> {
            &&& claims_in_token(token@) == Some(signed_claims(issuer@, subject@, metadata@))
            &&& issuer@ == public_key_of(seed@) && subject@.len() > 0 ==> is_well_signed(token@)
        },
{
    let key = nkeys::KeyPair::from_seed(seed)?;
    wascap::jwt::Claims::<wascap::jwt::Invocation>::new(
        issuer.to_string(),
        subject.to_string(),
        &metadata.target_url,
        &metadata.origin_url,
        &metadata.invocation_hash,
    ).encode(&key)
}

/// Calls `wascap::jwt::validate_token`, which fails on a malformed token and
/// otherwise reports on signature and dates. The contract names whether the
/// token is well formed and well signed. The dates are held against the clock,
/// so of them only this is promised: a token without an expiry date is not
/// reported as expired, and one without a "not before" date is not reported
/// as not yet usable.
#[verifier::external_body]
pub(crate) fn token_validity(token: &str) -> (outcome: Result<TokenValidation, wascap::Error>)
    ensures
        match outcome {
            Ok(found) => {
                &&& found.signature_valid == is_well_signed(token@)
                &&& claims_in_token(token@) matches Some(claims) ==> {
                    &&& claims.expires is None ==> !found.expired
                    &&& claims.not_before is None ==> !found.cannot_use_yet
                }
            },
            Err(_) => !is_well_signed(token@),
        },
{
    let found = wascap::jwt::validate_token::<wascap::jwt::Invocation>(token)?;
    Ok(
        TokenValidation {
            expired: found.expired,
            cannot_use_yet: found.cannot_use_yet,
            signature_valid: found.signature_valid,
        },
    )
}

/// Calls `wascap::jwt::Claims::<Invocation>::decode`, which reads the claims
/// out of the token's middle segment and looks at nothing else. The contract
/// names what it returns for a token.
#[verifier::external_body]
pub(crate) fn token_claims(token: &str) -> (outcome: Result<InvocationClaims, wascap::Error>)
    ensures
        match outcome {
            Ok(claims) => claims_in_token(token@) == Some(claims@),
            Err(_) => claims_in_token(token@) is None,
        },
{
    let claims = wascap::jwt::Claims::<wascap::jwt::Invocation>::decode(token)?;
    let metadata = match claims.metadata {
        Some(m) => Some(ClaimsMetadata {
            target_url: m.target_url,
            origin_url: m.origin_url,
            invocation_hash: m.invocation_hash,
        }),
        None => None,
    };
    let (subject, issuer) = (claims.subject, claims.issuer);
    let (expires, not_before) = (claims.expires, claims.not_before);
    Ok(InvocationClaims { subject, issuer, expires, not_before, metadata })
}

/// The signing key of a host, held as the seed that it was made from.
pub struct HostKey {
    seed: String,
    public_key: String,
}

/// What a `HostKey` stands for.
pub struct HostKeyView {
    pub seed: Seq<char>,
    pub public_key: Seq<char>,
}

impl View for HostKey {
    type V = HostKeyView;

    closed spec fn view(&self) -> HostKeyView {
        HostKeyView { seed: self.seed@, public_key: self.public_key@ }
    }
}

impl HostKeyView {
    /// Whether the seed is one, and the public key is that of its key pair.
    pub open spec fn is_key(self) -> bool {
        is_seed(self.seed) && self.public_key == public_key_of(self.seed)
    }
}

impl HostKey {
    #[verifier::type_invariant]
    spec fn holds_a_seed(self) -> bool {
        self@.is_key()
    }

    /// The key of the host whose seed is `seed`; none where the text is no
    /// seed.
    pub fn from_seed(seed: &str) -> (key: Option<HostKey>)
        ensures
            key is Some == is_seed(seed@),
            key matches Some(made) ==> made@.seed == seed@ && made@.is_key(),
    {
        match seed_public_key(seed) {
            Ok(public_key) => Some(HostKey { seed: seed.to_owned(), public_key }),
            Err(_) => None,
        }
    }

    /// The public key, under which others know the host.
    pub fn public_key(&self) -> (key: String)
        ensures
            key@ == self@.public_key,
            self@.is_key(),
    {
        proof {
            use_type_invariant(self);
        }
        self.public_key.clone()
    }

    /// Signs the claims of the call `subject` that say `metadata`, with this
    /// host as the issuer. The token decodes to those claims, and is well
    /// signed where the subject is not empty.
    pub fn sign(&self, subject: &str, metadata: &ClaimsMetadata) -> (token: String)
        ensures
            self@.is_key(),
            claims_in_token(token@) == Some(
                signed_claims(self@.public_key, subject@, metadata@),
            ),
            subject@.len() > 0 ==> is_well_signed(token@),
    {
        proof {
            use_type_invariant(self);
        }
        match sign_claims(self.seed.as_str(), self.public_key.as_str(), subject, metadata) {
            Ok(token) => token,
            Err(_) => unreached(),
        }
    }
}

} // verus!
