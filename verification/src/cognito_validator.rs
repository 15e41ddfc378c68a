//! The token validator: holds the remote key set for one configured user
//! pool together with the verifier built for the chosen token category, and
//! maps verification failures to the middleware's events.
//!
//! The key set and the verifier come from outside crates and are opaque
//! here; what this module verifies is the construction of the rule set (the
//! derived issuer, the client binding, the category marker) and the mapping
//! of every verification outcome to a terminal response or to forwarding.
use vstd::prelude::*;
use vstd::string::StringExecFns;

use crate::AxumCognitoError;
use crate::claims::{ClaimRules, OAuthTokenType};
use crate::screening::ValidationEvent;

verus! {

#[verifier::external_type_specification]
#[verifier::external_body]
pub struct ExKeySet(jsonwebtokens_cognito::KeySet);

#[verifier::external_type_specification]
#[verifier::external_body]
pub struct ExJwtVerifier(jsonwebtokens::Verifier);

#[verifier::external_type_specification]
#[verifier::external_body]
pub struct ExKeySetError(jsonwebtokens_cognito::Error);

#[verifier::external_type_specification]
#[verifier::external_body]
pub struct ExJwtError(jsonwebtokens::error::Error);

#[verifier::external_type_specification]
#[verifier::external_body]
pub struct ExJsonValue(serde_json::Value);

#[verifier::external_type_specification]
#[verifier::external_body]
pub struct ExSerdeJsonError(serde_json::Error);

#[verifier::external_type_specification]
#[verifier::external_body]
pub struct ExInstant(std::time::Instant);

/// Relies on `KeySet`'s derived `Clone`: a clone shares the same cached
/// key set; nothing is stated of the opaque result.
pub assume_specification[ <jsonwebtokens_cognito::KeySet as Clone>::clone ](
    k: &jsonwebtokens_cognito::KeySet,
) -> jsonwebtokens_cognito::KeySet;

/// Relies on `Verifier`'s derived `Clone`; nothing is stated of the opaque
/// result.
pub assume_specification[ <jsonwebtokens::Verifier as Clone>::clone ](
    v: &jsonwebtokens::Verifier,
) -> jsonwebtokens::Verifier;

/// Relies on `jsonwebtokens_cognito::KeySet::new`: builds the key set
/// handle for one region and pool; in the version used here its source
/// always returns `Ok`.
#[verifier::external_body]
fn key_set_new(region: &str, pool_id: &str) -> (r: Result<
    jsonwebtokens_cognito::KeySet,
    jsonwebtokens_cognito::Error,
>)
    ensures
        r is Ok,
{
    jsonwebtokens_cognito::KeySet::new(region, pool_id)
}

/// Relies on `KeySet::new_id_token_verifier` and `VerifierBuilder::build`:
/// builds the claim verifier for an identity token bound to the given
/// client id; in the version used here `build`'s source always returns
/// `Ok`.
#[verifier::external_body]
fn build_id_token_verifier(ks: &jsonwebtokens_cognito::KeySet, client_id: &str) -> (r: Result<
    jsonwebtokens::Verifier,
    jsonwebtokens::error::Error,
>)
    ensures
        r is Ok,
{
    ks.new_id_token_verifier(&[client_id]).build()
}

/// Relies on `KeySet::new_access_token_verifier` and
/// `VerifierBuilder::build`: builds the claim verifier for an access token
/// bound to the given client id; in the version used here `build`'s source
/// always returns `Ok`.
#[verifier::external_body]
fn build_access_token_verifier(ks: &jsonwebtokens_cognito::KeySet, client_id: &str) -> (r: Result<
    jsonwebtokens::Verifier,
    jsonwebtokens::error::Error,
>)
    ensures
        r is Ok,
{
    ks.new_access_token_verifier(&[client_id]).build()
}

/// Relies on `jsonwebtokens_cognito::Error`'s `Display` impl: renders the
/// error as its message.
#[verifier::external_body]
fn key_set_error_message(e: &jsonwebtokens_cognito::Error) -> (r: String) {
    format!("{}", e)
}

/// Relies on `jsonwebtokens::error::Error`'s `Display` impl: renders the
/// error as its message.
#[verifier::external_body]
fn jwt_error_message(e: &jsonwebtokens::error::Error) -> (r: String) {
    format!("{}", e)
}

/// Relies on `serde_json::Error`'s `Display` impl: renders the error as
/// its message.
#[verifier::external_body]
fn serde_error_message(e: &serde_json::Error) -> (r: String) {
    format!("{}", e)
}

/// What one verification attempt against the cached key set came to.
pub enum CachedVerification {
    /// Signature and claim rules passed; carries the verified claim set.
    Verified(serde_json::Value),
    /// A content-level failure: missing key id in the token header, bad
    /// signature, expired token, or a failed claim check.
    Rejected,
    /// An infrastructure fault.
    Unavailable,
    /// The token's key id is not in the directory; carries the time the
    /// directory was last fetched, if it ever was.
    MissingKey(Option<std::time::Instant>),
}

/// Relies on `KeySet::try_verify`: verifies the token's signature and its
/// claims against the keys cached in the key set, without network I/O;
/// what it returns depends on the shared key cache.
#[verifier::external_body]
fn try_verify(
    ks: &jsonwebtokens_cognito::KeySet,
    verifier: &jsonwebtokens::Verifier,
    token: &str,
) -> (r: Result<serde_json::Value, jsonwebtokens_cognito::Error>) {
    ks.try_verify(token, verifier)
}

/// Relies on the variants of `jsonwebtokens_cognito::Error`: sorts a failed
/// attempt, one arm per variant, moving fields only. `CacheMiss` (the key
/// id is not cached) keeps its last-fetch time; a missing key id in the
/// token header, a bad signature, an expired or malformed token are
/// content-level rejections; a network fault is infrastructure, as is any
/// variant this version does not name.
#[verifier::external_body]
fn classify_attempt_error(e: jsonwebtokens_cognito::Error) -> (r: CachedVerification)
    ensures
        !(r matches CachedVerification::Verified(_)),
{
    match e {
        jsonwebtokens_cognito::Error::NoKeyID() => CachedVerification::Rejected,
        jsonwebtokens_cognito::Error::InvalidSignature() => CachedVerification::Rejected,
        jsonwebtokens_cognito::Error::TokenExpiredAt(_) => CachedVerification::Rejected,
        jsonwebtokens_cognito::Error::MalformedToken(_) => CachedVerification::Rejected,
        jsonwebtokens_cognito::Error::CacheMiss(t) => CachedVerification::MissingKey(t),
        jsonwebtokens_cognito::Error::NetworkError(_) => CachedVerification::Unavailable,
        _ => CachedVerification::Unavailable,
    }
}

impl CachedVerification {
    /// The validation event settled by this attempt: `None` for a verified
    /// claim set, whose extraction is still to run, and for a missing key,
    /// which the caller may answer with one directory refresh.
    pub fn event(&self) -> (r: Option<ValidationEvent>)
        ensures
            match *self {
                CachedVerification::Verified(_) => r is None,
                CachedVerification::Rejected => r == Some(ValidationEvent::Rejected),
                CachedVerification::Unavailable => r == Some(ValidationEvent::Infrastructure),
                CachedVerification::MissingKey(_) => r is None,
            },
    {
        match self {
            CachedVerification::Verified(_) => None,
            CachedVerification::Rejected => Some(ValidationEvent::Rejected),
            CachedVerification::Unavailable => Some(ValidationEvent::Infrastructure),
            CachedVerification::MissingKey(_) => None,
        }
    }
}

/// The issuer that tokens of a pool must name: the pool's well-known URL,
/// derived from the region and the pool id.
pub open spec fn spec_issuer(region: Seq<char>, pool_id: Seq<char>) -> Seq<char> {
    "https://cognito-idp."@ + region + ".amazonaws.com/"@ + pool_id
}

/// Validator for bearer tokens issued by one Cognito user pool: the remote
/// key set, the verifier built for the chosen token category, and the rule
/// set it enforces.
///
/// `rules` is the library's statement of what the built verifier checks —
/// issuer equality, client binding for the category, the `token_use`
/// marker — on top of the signature and expiry checks; the claim-rule
/// checks themselves are verified on `ClaimRules`.
#[derive(Clone)]
pub struct CognitoValidator {
    /// The remote key set for the configured pool; refreshed through the
    /// outside crate, shared by clones of this validator.
    pub key_set: jsonwebtokens_cognito::KeySet,
    /// The signature-and-claim verifier built for the rule set.
    pub token_verifier: jsonwebtokens::Verifier,
    /// The rule set the verifier was built for.
    pub rules: ClaimRules,
}

impl CognitoValidator {
    /// Create a validator for one pool: build the key set handle for the
    /// region and pool, build the verifier for the chosen token category
    /// and client id, and record the rule set with the issuer derived from
    /// region and pool.
    ///
    /// The key set starts empty: the caller must fetch it (and so prove the
    /// identity provider reachable) before accepting traffic.
    pub fn new(
        token_type: OAuthTokenType,
        cognito_client_id: &str,
        cognito_pool_id: &str,
        cognito_region: &str,
    ) -> (r: Result<CognitoValidator, AxumCognitoError>)
        ensures
            r matches Ok(v) && v.rules.token_type == token_type
                && v.rules.client_id@ == cognito_client_id@
                && v.rules.issuer@ == spec_issuer(cognito_region@, cognito_pool_id@),
    {
        let key_set = match key_set_new(cognito_region, cognito_pool_id) {
            Ok(k) => k,
            Err(e) => {
                return Err(AxumCognitoError::JsonwebtokensCognito(key_set_error_message(&e)));
            },
        };
        let token_verifier = match token_type {
            OAuthTokenType::Id => match build_id_token_verifier(&key_set, cognito_client_id) {
                Ok(v) => v,
                Err(e) => {
                    return Err(AxumCognitoError::Jsonwebtokens(jwt_error_message(&e)));
                },
            },
            OAuthTokenType::Access => match build_access_token_verifier(
                &key_set,
                cognito_client_id,
            ) {
                Ok(v) => v,
                Err(e) => {
                    return Err(AxumCognitoError::Jsonwebtokens(jwt_error_message(&e)));
                },
            },
        };
        let mut issuer = String::from_str("https://cognito-idp.");
        issuer.append(cognito_region);
        issuer.append(".amazonaws.com/");
        issuer.append(cognito_pool_id);
        Ok(CognitoValidator {
            key_set,
            token_verifier,
            rules: ClaimRules {
                token_type,
                client_id: cognito_client_id.to_owned(),
                issuer,
            },
        })
    }
}

/// The library error for a key-set fetch that failed: carries the outside
/// error's message.
pub fn key_fetch_error(e: &jsonwebtokens_cognito::Error) -> (r: AxumCognitoError)
    ensures
        r matches AxumCognitoError::JsonwebtokensCognito(_),
{
    AxumCognitoError::JsonwebtokensCognito(key_set_error_message(e))
}

/// The library error for verified claims that did not deserialize into the
/// caller's claims type: a configuration bug to surface loudly, never a
/// client fault. Carries the deserializer's message.
pub fn claims_shape_error(e: &serde_json::Error) -> (r: AxumCognitoError)
    ensures
        r matches AxumCognitoError::SerdeJson(_),
{
    AxumCognitoError::SerdeJson(serde_error_message(e))
}

impl CognitoValidator {
    /// One verification attempt against the keys cached so far, without
    /// network I/O: the token's signature and claims checked against this
    /// validator's rule set. On a missing key the caller decides, through
    /// [`plan_missing_key`], whether one directory refresh is in order.
    pub fn try_validate(&self, token: &str) -> (r: CachedVerification) {
        match try_verify(&self.key_set, &self.token_verifier, token) {
            Ok(claims) => CachedVerification::Verified(claims),
            Err(e) => classify_attempt_error(e),
        }
    }
}

/// The minimum interval, in seconds, between two fetches of the key
/// directory: a bound on the refetch cost an attacker can force with
/// unknown key ids.
pub const MIN_JWKS_FETCH_INTERVAL_SECS: u64 = 60;

/// What to do about an attempt that found the token's signing key absent
/// from the directory.
#[derive(Copy, Clone, PartialEq, Eq, Structural, Debug)]
pub enum MissingKeyPlan {
    /// Refresh the whole key directory once, then try again.
    Refresh,
    /// Reject the token: the key id stayed unknown after a refresh, or a
    /// refresh is not allowed yet.
    Reject,
}

/// A directory refresh is allowed when none has happened yet, or the last
/// one is at least the minimum interval in the past.
pub open spec fn spec_refresh_allowed(elapsed_since_fetch: Option<u64>, min_interval: u64) -> bool {
    match elapsed_since_fetch {
        Some(d) => d >= min_interval,
        None => true,
    }
}

/// The plan for a missing signing key: at most one refresh per attempt,
/// and none within the minimum interval since the last fetch.
pub open spec fn spec_missing_key_plan(
    already_refreshed: bool,
    elapsed_since_fetch: Option<u64>,
    min_interval: u64,
) -> MissingKeyPlan {
    if !already_refreshed && spec_refresh_allowed(elapsed_since_fetch, min_interval) {
        MissingKeyPlan::Refresh
    } else {
        MissingKeyPlan::Reject
    }
}

/// Decide what a missing signing key leads to: one refresh of the whole
/// directory, unless one was already tried for this request or the last
/// fetch is under `min_interval` seconds old; otherwise the token is
/// rejected, which is the normal signal of key-rotation lag and never a
/// crash.
pub fn plan_missing_key(
    already_refreshed: bool,
    elapsed_since_fetch: Option<u64>,
    min_interval: u64,
) -> (r: MissingKeyPlan)
    ensures
        r == spec_missing_key_plan(already_refreshed, elapsed_since_fetch, min_interval),
{
    if already_refreshed {
        return MissingKeyPlan::Reject;
    }
    match elapsed_since_fetch {
        None => MissingKeyPlan::Refresh,
        Some(d) => {
            if d >= min_interval {
                MissingKeyPlan::Refresh
            } else {
                MissingKeyPlan::Reject
            }
        },
    }
}

/// The refresh policy is rate-limited: within the minimum interval since
/// the last fetch, a missing key never triggers a fetch, and each request
/// triggers at most one.
pub proof fn lemma_refresh_rate_limited(
    already_refreshed: bool,
    elapsed_since_fetch: Option<u64>,
    min_interval: u64,
)
    ensures
        (elapsed_since_fetch matches Some(d) && d < min_interval) ==> spec_missing_key_plan(
            already_refreshed,
            elapsed_since_fetch,
            min_interval,
        ) == MissingKeyPlan::Reject,
        already_refreshed ==> spec_missing_key_plan(
            already_refreshed,
            elapsed_since_fetch,
            min_interval,
        ) == MissingKeyPlan::Reject,
{
}

} // verus!
