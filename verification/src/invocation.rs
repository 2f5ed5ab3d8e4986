//! The invocation envelope: a call from one entity to another, signed by the
//! host that sends it, and the reply to it.

use crate::digest::{content_hash, hash_input, invocation_hash};
use crate::entity::{EntityView, WasmCloudEntity};
use crate::token::{
    claims_in_token, fresh_id, is_well_signed, token_claims, token_validity, ClaimsMetadata,
    ClaimsView, HostKey, InvocationClaims, MetadataView, TokenValidation,
};
use vstd::prelude::*;
use vstd::utf8::{is_ascii_chars, is_ascii_chars_encode_utf8};

verus! {

/// The public key under which the halt invocation travels.
pub const SYSTEM_ACTOR: &'static str = "system";

/// The operation of the halt invocation.
pub const OP_HALT: &'static str = "__halt";

/// A call of `operation` on `target`, made by `origin`, with the token that
/// the sending host signed for it.
#[derive(Debug, PartialEq, Eq)]
pub struct Invocation {
    pub origin: WasmCloudEntity,
    pub target: WasmCloudEntity,
    pub operation: String,
    pub msg: Vec<u8>,
    pub id: String,
    pub encoded_claims: String,
    pub host_id: String,
}

/// What an `Invocation` stands for.
pub struct InvocationView {
    pub origin: EntityView,
    pub target: EntityView,
    pub operation: Seq<char>,
    pub msg: Seq<u8>,
    pub id: Seq<char>,
    pub encoded_claims: Seq<char>,
    pub host_id: Seq<char>,
}

impl View for Invocation {
    type V = InvocationView;

    open spec fn view(&self) -> InvocationView {
        InvocationView {
            origin: self.origin@,
            target: self.target@,
            operation: self.operation@,
            msg: self.msg@,
            id: self.id@,
            encoded_claims: self.encoded_claims@,
            host_id: self.host_id@,
        }
    }
}

impl Clone for Invocation {
    fn clone(&self) -> (copy: Self)
        ensures
            copy@ == self@,
    {
        Invocation {
            origin: self.origin.clone(),
            target: self.target.clone(),
            operation: self.operation.clone(),
            msg: self.msg.clone(),
            id: self.id.clone(),
            encoded_claims: self.encoded_claims.clone(),
            host_id: self.host_id.clone(),
        }
    }
}

/// The URL that a call of `operation` on `target` is addressed to.
pub open spec fn call_url(target: EntityView, operation: Seq<char>) -> Seq<char> {
    target.url() + "/"@ + operation
}

/// What the token of a call says of the call: both URLs and the content
/// hash. A call that is too long to be hashed has none.
pub open spec fn metadata_of(
    origin: EntityView,
    target: EntityView,
    operation: Seq<char>,
    msg: Seq<u8>,
) -> Option<MetadataView> {
    match content_hash(origin.url(), call_url(target, operation), operation, msg) {
        Some(hash) => Some(
            MetadataView {
                target_url: call_url(target, operation),
                origin_url: origin.url(),
                invocation_hash: hash,
            },
        ),
        None => None,
    }
}

impl InvocationView {
    pub open spec fn origin_url(self) -> Seq<char> {
        self.origin.url()
    }

    pub open spec fn target_url(self) -> Seq<char> {
        call_url(self.target, self.operation)
    }

    /// The hash over origin URL, target URL, operation and payload.
    pub open spec fn content_hash(self) -> Option<Seq<char>> {
        content_hash(self.origin_url(), self.target_url(), self.operation, self.msg)
    }

    /// Whether the invocation is short enough to be hashed.
    pub open spec fn hashable(self) -> bool {
        self.content_hash() is Some
    }

    /// The claims that the token of this invocation carries when the
    /// invocation is as its host signed it: they name the invocation and its
    /// host, say what the invocation holds, and have no dates.
    pub open spec fn faithful_claims(self) -> ClaimsView {
        ClaimsView {
            subject: self.id,
            issuer: self.host_id,
            expires: None,
            not_before: None,
            metadata: metadata_of(self.origin, self.target, self.operation, self.msg),
        }
    }

    /// Whether `claims` are claims for this invocation: they name it and its
    /// host, and say what it holds. They may have dates.
    pub open spec fn is_claimed_by(self, claims: ClaimsView) -> bool {
        &&& claims.subject == self.id
        &&& claims.issuer == self.host_id
        &&& claims.metadata is Some
        &&& claims.metadata == metadata_of(self.origin, self.target, self.operation, self.msg)
    }

    /// Whether the invocation is as a host signed it: its token is well
    /// signed and decodes to the claims that the invocation itself gives.
    pub open spec fn is_sealed(self) -> bool {
        &&& self.hashable()
        &&& is_well_signed(self.encoded_claims)
        &&& claims_in_token(self.encoded_claims) == Some(self.faithful_claims())
    }
}

/// Why an invocation could not be made.
#[derive(Clone, Copy, Debug, PartialEq, Eq, Structural)]
pub enum EnvelopeError {
    /// Addresses, operation and payload together are too long to be hashed.
    TooLarge,
}

/// Why an invocation was rejected.
#[derive(Clone, Copy, Debug, PartialEq, Eq, Structural)]
pub enum ValidationError {
    /// The token is malformed, or its signature is not the issuer's.
    BadSignature,
    Expired,
    NotYetValid,
    MissingMetadata,
    HashMismatch,
    SubjectMismatch,
    IssuerMismatch,
    UntrustedIssuer,
    UrlMismatch,
}

impl ValidationError {
    /// The reason in words.
    pub fn message(&self) -> (text: String)
        ensures
            text@ == self.message_text(),
    {
        match self {
            ValidationError::BadSignature => String::from_str(
                "Invocation claims signature invalid",
            ),
            ValidationError::Expired => String::from_str("Invocation claims token expired"),
            ValidationError::NotYetValid => String::from_str(
                "Attempt to use invocation before claims token allows",
            ),
            ValidationError::MissingMetadata => String::from_str(
                "No wascap metadata found on claims",
            ),
            ValidationError::HashMismatch => String::from_str(
                "Invocation hash does not match signed claims hash",
            ),
            ValidationError::SubjectMismatch => String::from_str(
                "Subject of invocation claims token does not match invocation ID",
            ),
            ValidationError::IssuerMismatch => String::from_str(
                "Invocation claims issuer does not match invocation host",
            ),
            ValidationError::UntrustedIssuer => String::from_str(
                "Issuer of this invocation is not among the list of valid issuers",
            ),
            ValidationError::UrlMismatch => String::from_str(
                "Invocation claims and invocation URLs do not match",
            ),
        }
    }

    pub open spec fn message_text(self) -> Seq<char> {
        match self {
            ValidationError::BadSignature => "Invocation claims signature invalid"@,
            ValidationError::Expired => "Invocation claims token expired"@,
            ValidationError::NotYetValid =>
                "Attempt to use invocation before claims token allows"@,
            ValidationError::MissingMetadata => "No wascap metadata found on claims"@,
            ValidationError::HashMismatch =>
                "Invocation hash does not match signed claims hash"@,
            ValidationError::SubjectMismatch =>
                "Subject of invocation claims token does not match invocation ID"@,
            ValidationError::IssuerMismatch =>
                "Invocation claims issuer does not match invocation host"@,
            ValidationError::UntrustedIssuer =>
                "Issuer of this invocation is not among the list of valid issuers"@,
            ValidationError::UrlMismatch => "Invocation claims and invocation URLs do not match"@,
        }
    }
}

/// The outcome of validation for an invocation, given what the check of its
/// token found, the claims in the token and the issuers that the receiver
/// trusts. The first check that fails gives the reason.
pub open spec fn verdict(
    inv: InvocationView,
    status: TokenValidation,
    claims: ClaimsView,
    issuers: Seq<Seq<char>>,
) -> Result<(), ValidationError> {
    if !status.signature_valid {
        Err(ValidationError::BadSignature)
    } else if status.expired {
        Err(ValidationError::Expired)
    } else if status.cannot_use_yet {
        Err(ValidationError::NotYetValid)
    } else if claims.metadata is None {
        Err(ValidationError::MissingMetadata)
    } else if inv.content_hash() != Some(claims.metadata->0.invocation_hash) {
        Err(ValidationError::HashMismatch)
    } else if claims.subject != inv.id {
        Err(ValidationError::SubjectMismatch)
    } else if claims.issuer != inv.host_id {
        Err(ValidationError::IssuerMismatch)
    } else if !issuers.contains(claims.issuer) {
        Err(ValidationError::UntrustedIssuer)
    } else if claims.metadata->0.target_url != inv.target_url() || claims.metadata->0.origin_url
        != inv.origin_url() {
        Err(ValidationError::UrlMismatch)
    } else {
        Ok(())
    }
}

/// Works out what the token of a call is to say of it: the URL of the
/// origin, the URL that the call is addressed to, and the content hash over
/// both, the operation and the payload.
pub fn call_metadata(
    origin: &WasmCloudEntity,
    target: &WasmCloudEntity,
    op: &str,
    msg: &[u8],
) -> (metadata: Option<ClaimsMetadata>)
    ensures
        (match metadata {
            Some(found) => Some(found@),
            None => None,
        }) == metadata_of(origin@, target@, op@, msg@),
{
    let origin_url = origin.url();
    let mut target_url = target.url();
    target_url.append("/");
    target_url.append(op);
    match invocation_hash(target_url.as_str(), origin_url.as_str(), msg, op) {
        Some(invocation_hash) => Some(ClaimsMetadata { target_url, origin_url, invocation_hash }),
        None => None,
    }
}

/// Whether `wanted` is one of `issuers`.
pub fn is_trusted(issuers: &Vec<String>, wanted: &str) -> (found: bool)
    ensures
        found == issuers.deep_view().contains(wanted@),
{
    let mut i: usize = 0;
    while i < issuers.len()
        invariant
            i <= issuers.len(),
            forall|j: int| 0 <= j < i ==> issuers.deep_view()[j] != wanted@,
        decreases issuers.len() - i,
    {
        assert(issuers.deep_view()[i as int] == issuers[i as int]@);
        if crate::text::same_text(issuers[i].as_str(), wanted) {
            assert(issuers.deep_view().contains(wanted@));
            return true;
        }
        i += 1;
    }
    false
}

/// Judges an invocation by what the check of its token found and the claims
/// that the token holds.
pub fn judge(
    inv: &Invocation,
    status: &TokenValidation,
    claims: &InvocationClaims,
    valid_issuers: &Vec<String>,
) -> (result: Result<(), ValidationError>)
    ensures
        result == verdict(inv@, *status, claims@, valid_issuers.deep_view()),
{
    if !status.signature_valid {
        return Err(ValidationError::BadSignature);
    }
    if status.expired {
        return Err(ValidationError::Expired);
    }
    if status.cannot_use_yet {
        return Err(ValidationError::NotYetValid);
    }
    match &claims.metadata {
        None => Err(ValidationError::MissingMetadata),
        Some(metadata) => {
            let hash_matches = match inv.checked_hash() {
                Some(hash) => hash == metadata.invocation_hash,
                None => false,
            };
            if !hash_matches {
                return Err(ValidationError::HashMismatch);
            }
            if claims.subject != inv.id {
                return Err(ValidationError::SubjectMismatch);
            }
            if claims.issuer != inv.host_id {
                return Err(ValidationError::IssuerMismatch);
            }
            if !is_trusted(valid_issuers, claims.issuer.as_str()) {
                return Err(ValidationError::UntrustedIssuer);
            }
            if metadata.target_url != inv.target_url() || metadata.origin_url != inv.origin_url() {
                return Err(ValidationError::UrlMismatch);
            }
            Ok(())
        },
    }
}

impl Invocation {
    /// Puts an invocation together from its parts: the call, the id that was
    /// drawn for it, the public key of the host, and the token that the host
    /// signed.
    pub fn assemble(
        origin: WasmCloudEntity,
        target: WasmCloudEntity,
        op: &str,
        msg: Vec<u8>,
        id: String,
        host_id: String,
        encoded_claims: String,
    ) -> (inv: Invocation)
        ensures
            inv@ == (InvocationView {
                origin: origin@,
                target: target@,
                operation: op@,
                msg: msg@,
                id: id@,
                encoded_claims: encoded_claims@,
                host_id: host_id@,
            }),
    {
        Invocation { origin, target, operation: op.to_owned(), msg, id, encoded_claims, host_id }
    }

    /// Makes the invocation of `op` on `target` by `origin` with payload `msg`:
    /// draws a fresh id of 36 characters for it, and has the host sign claims
    /// that name the id and the host and hold the content hash and both URLs.
    /// It succeeds for every call that is short enough to be hashed, and fails
    /// with `TooLarge` for every other.
    pub fn new(
        hostkey: &HostKey,
        origin: WasmCloudEntity,
        target: WasmCloudEntity,
        op: &str,
        msg: Vec<u8>,
    ) -> (made: Result<Invocation, EnvelopeError>)
        ensures
            made is Ok <==> metadata_of(origin@, target@, op@, msg@) is Some,
            made matches Ok(inv) ==> {
                &&& inv@.origin == origin@
                &&& inv@.target == target@
                &&& inv@.operation == op@
                &&& inv@.msg == msg@
                &&& inv@.id.len() == 36
                &&& inv@.host_id == hostkey@.public_key
                &&& hostkey@.is_key()
                &&& inv@.is_sealed()
            },
            made matches Err(e) ==> e is TooLarge,
    {
        let metadata = match call_metadata(&origin, &target, op, msg.as_slice()) {
            Some(metadata) => metadata,
            None => { return Err(EnvelopeError::TooLarge); },
        };
        let id = fresh_id();
        let token = hostkey.sign(id.as_str(), &metadata);
        Ok(Invocation::assemble(origin, target, op, msg, id, hostkey.public_key(), token))
    }

    /// The signed invocation that tells its receiver to stop. Origin and
    /// target are both the system actor, so no subject on the bus leads to it.
    pub fn halt(hostkey: &HostKey) -> (inv: Invocation)
        ensures
            inv@.origin == EntityView::Actor(SYSTEM_ACTOR@),
            inv@.target == EntityView::Actor(SYSTEM_ACTOR@),
            inv@.operation == OP_HALT@,
            inv@.msg == Seq::<u8>::empty(),
            inv@.id.len() == 36,
            inv@.host_id == hostkey@.public_key,
            hostkey@.is_key(),
            inv@.is_sealed(),
    {
        let target = WasmCloudEntity::actor(SYSTEM_ACTOR);
        proof {
            lemma_halt_is_hashable();
        }
        match Invocation::new(hostkey, target.clone(), target, OP_HALT, Vec::new()) {
            Ok(inv) => inv,
            Err(_) => unreached(),
        }
    }

    /// The URL of the origin.
    pub fn origin_url(&self) -> (url: String)
        ensures
            url@ == self@.origin_url(),
    {
        self.origin.url()
    }

    /// The URL of the target, a `/` and the operation.
    pub fn target_url(&self) -> (url: String)
        ensures
            url@ == self@.target_url(),
    {
        let mut url = self.target.url();
        url.append("/");
        url.append(self.operation.as_str());
        url
    }

    /// Whether the invocation is short enough to be hashed.
    pub fn fits_digest(&self) -> (fits: bool)
        ensures
            fits == self@.hashable(),
    {
        let origin_url = self.origin_url();
        let target_url = self.target_url();
        let origin = origin_url.as_str().as_bytes();
        let target = target_url.as_str().as_bytes();
        let operation = self.operation.as_str().as_bytes();
        let total: u128 = origin.len() as u128 + target.len() as u128 + operation.len() as u128
            + self.msg.len() as u128;
        assert(hash_input(self@.origin_url(), self@.target_url(), self@.operation, self@.msg).len()
            == total);
        total < 0x2000_0000_0000_0000u128
    }

    /// The content hash: SHA-256 over origin URL, target URL, operation and
    /// payload, in upper-case hexadecimal.
    pub fn hash(&self) -> (hash: String)
        requires
            self@.hashable(),
        ensures
            Some(hash@) == self@.content_hash(),
            hash@.len() == 64,
    {
        let origin_url = self.origin_url();
        let target_url = self.target_url();
        let hash = invocation_hash(
            target_url.as_str(),
            origin_url.as_str(),
            self.msg.as_slice(),
            self.operation.as_str(),
        );
        hash.unwrap()
    }

    /// The content hash, or `None` where the invocation is too long to be
    /// hashed.
    pub fn checked_hash(&self) -> (hash: Option<String>)
        ensures
            (match hash {
                Some(text) => Some(text@),
                None => None,
            }) == self@.content_hash(),
            hash matches Some(text) ==> text@.len() == 64,
    {
        if self.fits_digest() {
            Some(self.hash())
        } else {
            None
        }
    }

    /// Checks that the invocation is what a trusted host signed: the token is
    /// well formed and signed by its issuer, is within its dates, carries the
    /// hash and the URLs of this invocation, names this invocation and its
    /// host, and the host is one of `valid_issuers`. The first check that fails
    /// gives the reason. Whether a date of the token has passed is read off the
    /// clock; a token without dates is within its dates. So an invocation that
    /// is as its host signed it passes wherever the host is trusted.
    pub fn validate_antiforgery(&self, valid_issuers: Vec<String>) -> (result: Result<
        (),
        ValidationError,
    >)
        ensures
            match claims_in_token(self@.encoded_claims) {
                Some(claims) => exists|expired: bool, cannot_use_yet: bool|
                    {
                        &&& claims.expires is None ==> !expired
                        &&& claims.not_before is None ==> !cannot_use_yet
                        &&& result == #[trigger] verdict(
                            self@,
                            TokenValidation {
                                expired,
                                cannot_use_yet,
                                signature_valid: is_well_signed(self@.encoded_claims),
                            },
                            claims,
                            valid_issuers.deep_view(),
                        )
                    },
                None => result == Err::<(), ValidationError>(ValidationError::BadSignature),
            },
            result is Ok ==> {
                &&& self@.hashable()
                &&& is_well_signed(self@.encoded_claims)
                &&& claims_in_token(self@.encoded_claims) is Some
                &&& self@.is_claimed_by(claims_in_token(self@.encoded_claims)->0)
                &&& valid_issuers.deep_view().contains(self@.host_id)
            },
            self@.is_sealed() && valid_issuers.deep_view().contains(self@.host_id) ==> result is Ok,
    {
        let claims = match token_claims(self.encoded_claims.as_str()) {
            Ok(claims) => claims,
            Err(_) => { return Err(ValidationError::BadSignature); },
        };
        let status = match token_validity(self.encoded_claims.as_str()) {
            Ok(status) => status,
            Err(_) => TokenValidation {
                expired: false,
                cannot_use_yet: false,
                signature_valid: false,
            },
        };
        let result = judge(self, &status, &claims, &valid_issuers);
        assert(result == verdict(
            self@,
            TokenValidation {
                expired: status.expired,
                cannot_use_yet: status.cannot_use_yet,
                signature_valid: is_well_signed(self@.encoded_claims),
            },
            claims@,
            valid_issuers.deep_view(),
        ));
        result
    }
}

/// A reply to an invocation.
#[derive(Debug, PartialEq, Eq)]
pub struct InvocationResponse {
    /// The payload of a successful call.
    pub msg: Vec<u8>,
    /// What went wrong, where the call failed.
    pub error: Option<String>,
    /// The id of the invocation that this answers.
    pub invocation_id: String,
    /// The instance of the provider that answered, where it says so.
    pub instance_id: Option<String>,
}

/// What an `InvocationResponse` stands for.
pub struct ResponseView {
    pub msg: Seq<u8>,
    pub error: Option<Seq<char>>,
    pub invocation_id: Seq<char>,
    pub instance_id: Option<Seq<char>>,
}

impl View for InvocationResponse {
    type V = ResponseView;

    open spec fn view(&self) -> ResponseView {
        ResponseView {
            msg: self.msg@,
            error: match self.error {
                Some(text) => Some(text@),
                None => None,
            },
            invocation_id: self.invocation_id@,
            instance_id: match self.instance_id {
                Some(text) => Some(text@),
                None => None,
            },
        }
    }
}

/// The reply to the invocation `inv_id` that carries the payload of a
/// successful call.
pub open spec fn success_of(inv_id: Seq<char>, payload: Seq<u8>) -> ResponseView {
    ResponseView { msg: payload, error: None, invocation_id: inv_id, instance_id: None }
}

/// The reply to the invocation `inv_id` that says why the call failed.
pub open spec fn failure_of(inv_id: Seq<char>, reason: Seq<char>) -> ResponseView {
    ResponseView { msg: Seq::empty(), error: Some(reason), invocation_id: inv_id, instance_id: None }
}

impl ResponseView {
    /// Whether the response carries one outcome: a response that reports an
    /// error has no payload.
    pub open spec fn carries_one_outcome(self) -> bool {
        self.error is Some ==> self.msg.len() == 0
    }
}

/// A reply that is made for an invocation, of success or of failure, carries
/// one outcome and the id of that invocation.
pub proof fn lemma_replies_answer_their_invocation(
    inv_id: Seq<char>,
    payload: Seq<u8>,
    reason: Seq<char>,
)
    ensures
        success_of(inv_id, payload).carries_one_outcome(),
        success_of(inv_id, payload).invocation_id == inv_id,
        failure_of(inv_id, reason).carries_one_outcome(),
        failure_of(inv_id, reason).invocation_id == inv_id,
{
}

impl Clone for InvocationResponse {
    fn clone(&self) -> (copy: Self)
        ensures
            copy@ == self@,
    {
        InvocationResponse {
            msg: self.msg.clone(),
            error: match &self.error {
                Some(text) => Some(text.clone()),
                None => None,
            },
            invocation_id: self.invocation_id.clone(),
            instance_id: match &self.instance_id {
                Some(text) => Some(text.clone()),
                None => None,
            },
        }
    }
}

impl InvocationResponse {
    /// The successful reply to `inv` with payload `msg`.
    pub fn success(inv: &Invocation, msg: Vec<u8>) -> (response: InvocationResponse)
        ensures
            response@ == success_of(inv@.id, msg@),
    {
        InvocationResponse { msg, error: None, invocation_id: inv.id.clone(), instance_id: None }
    }

    /// The reply to `inv` that reports `err`.
    pub fn error(inv: &Invocation, err: &str) -> (response: InvocationResponse)
        ensures
            response@ == failure_of(inv@.id, err@),
    {
        InvocationResponse {
            msg: Vec::new(),
            error: Some(err.to_owned()),
            invocation_id: inv.id.clone(),
            instance_id: None,
        }
    }

    /// The same reply, marked as coming from the provider instance
    /// `instance_id`.
    pub fn with_instance(self, instance_id: &str) -> (response: InvocationResponse)
        ensures
            response@ == (ResponseView { instance_id: Some(instance_id@), ..self@ }),
    {
        InvocationResponse {
            msg: self.msg,
            error: self.error,
            invocation_id: self.invocation_id,
            instance_id: Some(instance_id.to_owned()),
        }
    }

    /// The reply with which a provider reports that its work for `inv` failed
    /// with `e`.
    pub fn failure(inv: &Invocation, e: &str) -> (response: InvocationResponse)
        ensures
            response@ == failure_of(inv@.id, e@),
    {
        InvocationResponse::error(inv, e)
    }
}

/// The halt invocation is short enough to be hashed.
pub proof fn lemma_halt_is_hashable()
    ensures
        content_hash(
            EntityView::Actor(SYSTEM_ACTOR@).url(),
            call_url(EntityView::Actor(SYSTEM_ACTOR@), OP_HALT@),
            OP_HALT@,
            Seq::<u8>::empty(),
        ) is Some,
{
    reveal_strlit("wasmbus://");
    reveal_strlit("system");
    reveal_strlit("/");
    reveal_strlit("__halt");
    let origin_url = EntityView::Actor(SYSTEM_ACTOR@).url();
    let target_url = call_url(EntityView::Actor(SYSTEM_ACTOR@), OP_HALT@);
    assert(origin_url.len() == 16);
    assert(target_url.len() == 23);
    assert(is_ascii_chars(origin_url));
    assert(is_ascii_chars(target_url));
    assert(is_ascii_chars(OP_HALT@));
    is_ascii_chars_encode_utf8(origin_url);
    is_ascii_chars_encode_utf8(target_url);
    is_ascii_chars_encode_utf8(OP_HALT@);
}

/// An invocation passes exactly when every check holds: the token is well
/// signed and within its dates, its claims name the invocation and its host
/// and say what the invocation holds, and the host is trusted.
pub proof fn lemma_passes_iff_every_check_holds(
    inv: InvocationView,
    status: TokenValidation,
    claims: ClaimsView,
    issuers: Seq<Seq<char>>,
)
    ensures
        verdict(inv, status, claims, issuers) is Ok <==> {
            &&& status.signature_valid
            &&& !status.expired
            &&& !status.cannot_use_yet
            &&& inv.is_claimed_by(claims)
            &&& issuers.contains(inv.host_id)
        },
{
}

/// An invocation that is as its host signed it passes wherever the host is
/// trusted: its token is well signed and has no dates to be outside of, and
/// its claims are the invocation's own.
pub proof fn lemma_untouched_invocation_passes(
    inv: InvocationView,
    expired: bool,
    cannot_use_yet: bool,
    issuers: Seq<Seq<char>>,
)
    requires
        inv.is_sealed(),
        claims_in_token(inv.encoded_claims)->0.expires is None ==> !expired,
        claims_in_token(inv.encoded_claims)->0.not_before is None ==> !cannot_use_yet,
        issuers.contains(inv.host_id),
    ensures
        verdict(
            inv,
            TokenValidation {
                expired,
                cannot_use_yet,
                signature_valid: is_well_signed(inv.encoded_claims),
            },
            claims_in_token(inv.encoded_claims)->0,
            issuers,
        ) == Ok::<(), ValidationError>(()),
{
}

/// An invocation whose content no longer hashes to what its token holds is
/// rejected as a hash mismatch, whatever else was changed: the token is the
/// one that the host signed for the content as it was, so it is well signed
/// and has no dates.
pub proof fn lemma_tampering_is_hash_mismatch(
    signed: InvocationView,
    tampered: InvocationView,
    expired: bool,
    cannot_use_yet: bool,
    issuers: Seq<Seq<char>>,
)
    requires
        signed.is_sealed(),
        tampered.encoded_claims == signed.encoded_claims,
        tampered.content_hash() != signed.content_hash(),
        claims_in_token(tampered.encoded_claims)->0.expires is None ==> !expired,
        claims_in_token(tampered.encoded_claims)->0.not_before is None ==> !cannot_use_yet,
    ensures
        verdict(
            tampered,
            TokenValidation {
                expired,
                cannot_use_yet,
                signature_valid: is_well_signed(tampered.encoded_claims),
            },
            claims_in_token(tampered.encoded_claims)->0,
            issuers,
        ) == Err::<(), ValidationError>(ValidationError::HashMismatch),
{
}

/// An invocation that is as its host signed it is rejected as coming from an
/// untrusted issuer where the host is not among the trusted ones, although the
/// signature is valid.
pub proof fn lemma_unknown_host_is_untrusted(
    inv: InvocationView,
    expired: bool,
    cannot_use_yet: bool,
    issuers: Seq<Seq<char>>,
)
    requires
        inv.is_sealed(),
        claims_in_token(inv.encoded_claims)->0.expires is None ==> !expired,
        claims_in_token(inv.encoded_claims)->0.not_before is None ==> !cannot_use_yet,
        !issuers.contains(inv.host_id),
    ensures
        verdict(
            inv,
            TokenValidation {
                expired,
                cannot_use_yet,
                signature_valid: is_well_signed(inv.encoded_claims),
            },
            claims_in_token(inv.encoded_claims)->0,
            issuers,
        ) == Err::<(), ValidationError>(ValidationError::UntrustedIssuer),
{
}

} // verus!
