//! The claim rules: which claims a token must carry, per token category,
//! to be accepted once its signature has been checked against the key
//! directory.
use vstd::prelude::*;
use vstd::string::StringExecFns;

verus! {

/// Token categories issued by the identity provider.
///
/// An `Id` token binds to the client through its `aud` claim; an `Access`
/// token binds through its `client_id` claim and carries no audience check.
#[derive(Copy, Clone, PartialEq, Eq, Structural, Debug)]
pub enum OAuthTokenType {
    Id,
    Access,
}

/// The `token_use` marker value that a token of the given category must
/// carry.
pub open spec fn spec_token_use_marker(t: OAuthTokenType) -> Seq<char> {
    match t {
        OAuthTokenType::Id => "id"@,
        OAuthTokenType::Access => "access"@,
    }
}

impl OAuthTokenType {
    /// The `token_use` marker a token of this category must carry.
    pub fn token_use_marker(&self) -> (r: String)
        ensures
            r@ == spec_token_use_marker(*self),
    {
        match self {
            OAuthTokenType::Id => String::from_str("id"),
            OAuthTokenType::Access => String::from_str("access"),
        }
    }
}

/// The standard claims of a verified token that the rules read, as plain
/// values; a field is `None` when the token does not carry that claim.
#[derive(Clone, Debug)]
pub struct TokenClaims {
    /// Expiry, in seconds since the epoch.
    pub exp: Option<u64>,
    /// Issuer.
    pub iss: Option<String>,
    /// Audience.
    pub aud: Option<String>,
    /// Client binding of an access token.
    pub client_id: Option<String>,
    /// Token-category marker.
    pub token_use: Option<String>,
}

/// The rule set a validator enforces: the token category, the expected
/// client id, and the expected issuer.
#[derive(Clone, Debug)]
pub struct ClaimRules {
    /// Which token category the rules accept.
    pub token_type: OAuthTokenType,
    /// The client id the token must bind to.
    pub client_id: String,
    /// The issuer the token must name.
    pub issuer: String,
}

/// The category-specific client binding: an `Id` token must carry the
/// client id as its audience, an `Access` token as its `client_id` claim.
pub open spec fn spec_binding_ok(rules: ClaimRules, c: TokenClaims) -> bool {
    match rules.token_type {
        OAuthTokenType::Id => match c.aud {
            Some(a) => a@ == rules.client_id@,
            None => false,
        },
        OAuthTokenType::Access => match c.client_id {
            Some(a) => a@ == rules.client_id@,
            None => false,
        },
    }
}

/// A claim set passes the rules at time `now` when it is not expired, names
/// the expected issuer, binds to the expected client for its category, and
/// carries the category's `token_use` marker.
pub open spec fn spec_claims_accepted(rules: ClaimRules, c: TokenClaims, now: u64) -> bool {
    &&& match c.exp {
        Some(e) => now < e,
        None => true,
    }
    &&& match c.iss {
        Some(i) => i@ == rules.issuer@,
        None => false,
    }
    &&& spec_binding_ok(rules, c)
    &&& match c.token_use {
        Some(u) => u@ == spec_token_use_marker(rules.token_type),
        None => false,
    }
}

impl ClaimRules {
    /// Check a verified claim set against these rules at time `now`
    /// (seconds since the epoch): expiry, issuer, client binding for the
    /// category, and the category marker.
    pub fn check_claims(&self, c: &TokenClaims, now: u64) -> (r: bool)
        ensures
            r == spec_claims_accepted(*self, *c, now),
    {
        let fresh = match c.exp {
            Some(e) => now < e,
            None => true,
        };
        let issuer_ok = match &c.iss {
            Some(i) => *i == self.issuer,
            None => false,
        };
        let binding_ok = match self.token_type {
            OAuthTokenType::Id => match &c.aud {
                Some(a) => *a == self.client_id,
                None => false,
            },
            OAuthTokenType::Access => match &c.client_id {
                Some(a) => *a == self.client_id,
                None => false,
            },
        };
        let marker = self.token_type.token_use_marker();
        let marker_ok = match &c.token_use {
            Some(u) => *u == marker,
            None => false,
        };
        fresh && issuer_ok && binding_ok && marker_ok
    }
}

/// A claim set whose `exp` has passed is rejected, all else held constant.
pub proof fn lemma_expired_rejected(rules: ClaimRules, c: TokenClaims, now: u64)
    requires
        c.exp matches Some(e) && e <= now,
    ensures
        !spec_claims_accepted(rules, c, now),
{
}

/// A claim set naming a wrong or no issuer is rejected, all else held
/// constant.
pub proof fn lemma_wrong_issuer_rejected(rules: ClaimRules, c: TokenClaims, now: u64)
    requires
        match c.iss {
            Some(i) => i@ != rules.issuer@,
            None => true,
        },
    ensures
        !spec_claims_accepted(rules, c, now),
{
}

/// An identity token whose audience is wrong or absent is rejected, all
/// else held constant.
pub proof fn lemma_wrong_audience_rejected(rules: ClaimRules, c: TokenClaims, now: u64)
    requires
        rules.token_type == OAuthTokenType::Id,
        match c.aud {
            Some(a) => a@ != rules.client_id@,
            None => true,
        },
    ensures
        !spec_claims_accepted(rules, c, now),
{
}

/// An access token whose `client_id` claim is wrong or absent is rejected,
/// all else held constant.
pub proof fn lemma_wrong_client_binding_rejected(rules: ClaimRules, c: TokenClaims, now: u64)
    requires
        rules.token_type == OAuthTokenType::Access,
        match c.client_id {
            Some(a) => a@ != rules.client_id@,
            None => true,
        },
    ensures
        !spec_claims_accepted(rules, c, now),
{
}

/// A claim set carrying the wrong category marker, or none, is rejected,
/// all else held constant.
pub proof fn lemma_wrong_category_rejected(rules: ClaimRules, c: TokenClaims, now: u64)
    requires
        match c.token_use {
            Some(u) => u@ != spec_token_use_marker(rules.token_type),
            None => true,
        },
    ensures
        !spec_claims_accepted(rules, c, now),
{
}

/// Round trip over the rules: a claim set that is fresh, names the expected
/// issuer, binds to the expected client for its category, and carries the
/// category marker is accepted; and corrupting any one of those claims, all
/// else held constant, makes it rejected.
pub proof fn lemma_claims_round_trip(rules: ClaimRules, c: TokenClaims, now: u64)
    requires
        c.exp matches Some(e) && now < e,
        c.iss matches Some(i) && i@ == rules.issuer@,
        spec_binding_ok(rules, c),
        c.token_use matches Some(u) && u@ == spec_token_use_marker(rules.token_type),
    ensures
        spec_claims_accepted(rules, c, now),
        forall|e2: u64| e2 <= now ==> !spec_claims_accepted(
            rules,
            (TokenClaims { exp: Some(e2), ..c }),
            now,
        ),
        forall|i2: String| i2@ != rules.issuer@ ==> !spec_claims_accepted(
            rules,
            (TokenClaims { iss: Some(i2), ..c }),
            now,
        ),
        forall|u2: String| u2@ != spec_token_use_marker(rules.token_type)
            ==> !spec_claims_accepted(rules, (TokenClaims { token_use: Some(u2), ..c }), now),
{
}

} // verus!
