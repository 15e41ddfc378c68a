//! Middleware library for authorizing inbound requests with bearer tokens
//! issued by an AWS Cognito user pool.
//!
//! The request-screening rules, the claim-rule checks for each token
//! category, and the key-directory cache policy are verified; the network
//! fetch of the signing keys and the signature check itself are performed by
//! outside crates.
use vstd::prelude::*;

pub mod claims;
pub mod cognito_validator;
pub mod screening;

pub use claims::OAuthTokenType;
pub use cognito_validator::CognitoValidator;

verus! {

/// Errors raised while establishing or running the validator: building the
/// key set, building the token verifier, or deserializing verified claims.
#[derive(Debug, Clone)]
pub enum AxumCognitoError {
    /// The key set for the configured pool could not be built or fetched.
    JsonwebtokensCognito(String),
    /// The token verifier for the chosen rules could not be built.
    Jsonwebtokens(String),
    /// Verified claims did not deserialize into the caller's claims type.
    SerdeJson(String),
}

/// The message carried by an error value.
pub open spec fn spec_error_message(e: AxumCognitoError) -> Seq<char> {
    match e {
        AxumCognitoError::JsonwebtokensCognito(s) => s@,
        AxumCognitoError::Jsonwebtokens(s) => s@,
        AxumCognitoError::SerdeJson(s) => s@,
    }
}

impl AxumCognitoError {
    /// The message carried by this error.
    pub fn message(&self) -> (r: String)
        ensures
            r@ == spec_error_message(*self),
    {
        match self {
            AxumCognitoError::JsonwebtokensCognito(s) => s.clone(),
            AxumCognitoError::Jsonwebtokens(s) => s.clone(),
            AxumCognitoError::SerdeJson(s) => s.clone(),
        }
    }
}

} // verus!
