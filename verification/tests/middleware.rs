use axum_cognito::claims::{ClaimRules, TokenClaims};
use axum_cognito::cognito_validator::{
    claims_shape_error, key_fetch_error, plan_missing_key, CachedVerification,
    MissingKeyPlan, MIN_JWKS_FETCH_INTERVAL_SECS,
};
use axum_cognito::screening::{
    error_event, screen_header, screen_response, validation_response, AuthResponse,
    HeaderScreen, ResponseBody, ValidationEvent,
};
use axum_cognito::{AxumCognitoError, CognitoValidator, OAuthTokenType};
use jsonwebtokens_cognito::{Error, ErrorDetails};

fn claims(exp: Option<u64>, iss: &str, aud: Option<&str>, client_id: Option<&str>, token_use: &str) -> TokenClaims {
    TokenClaims {
        exp,
        iss: Some(iss.to_string()),
        aud: aud.map(|s| s.to_string()),
        client_id: client_id.map(|s| s.to_string()),
        token_use: Some(token_use.to_string()),
    }
}

fn id_rules() -> ClaimRules {
    let v = CognitoValidator::new(OAuthTokenType::Id, "C1", "P1", "R1").unwrap();
    v.rules
}

const ISS: &str = "https://cognito-idp.R1.amazonaws.com/P1";

#[test]
fn missing_header_is_bad_request() {
    let s = screen_header(None);
    assert!(matches!(s, HeaderScreen::MissingHeader));
    let r = screen_response(&s);
    assert_eq!(
        r,
        Some(AuthResponse { status: 400, body: ResponseBody::MissingHeaderText })
    );
}

#[test]
fn non_text_header_is_bad_request() {
    let h: Vec<u8> = vec![66, 101, 97, 114, 101, 114, 32, 200, 13];
    let s = screen_header(Some(&h));
    assert!(matches!(s, HeaderScreen::NotText));
    let r = screen_response(&s);
    assert_eq!(
        r,
        Some(AuthResponse { status: 400, body: ResponseBody::MalformedTokenText })
    );
}

#[test]
fn wrong_scheme_is_bad_request() {
    // `Bear C1...`: wrong scheme word, so no `Bearer ` prefix.
    let h: Vec<u8> = b"Bear C1.aaa.bbb".to_vec();
    let s = screen_header(Some(&h));
    assert!(matches!(s, HeaderScreen::WrongScheme));
    let r = screen_response(&s);
    assert_eq!(
        r,
        Some(AuthResponse { status: 400, body: ResponseBody::MalformedTokenText })
    );
}

#[test]
fn short_header_is_bad_request() {
    let h: Vec<u8> = b"Bearer".to_vec();
    let s = screen_header(Some(&h));
    assert!(matches!(s, HeaderScreen::WrongScheme));
}

#[test]
fn lowercase_scheme_is_rejected() {
    let h: Vec<u8> = b"bearer tok".to_vec();
    let s = screen_header(Some(&h));
    assert!(matches!(s, HeaderScreen::WrongScheme));
}

#[test]
fn bearer_token_is_extracted() {
    let h: Vec<u8> = b"Bearer abc.def.ghi".to_vec();
    match screen_header(Some(&h)) {
        HeaderScreen::Token(t) => assert_eq!(t, b"abc.def.ghi".to_vec()),
        _ => panic!("expected a token"),
    }
}

#[test]
fn surrounding_whitespace_is_trimmed() {
    let h: Vec<u8> = b"Bearer \t  abc \t ".to_vec();
    match screen_header(Some(&h)) {
        HeaderScreen::Token(t) => assert_eq!(t, b"abc".to_vec()),
        _ => panic!("expected a token"),
    }
}

#[test]
fn empty_token_is_extracted_empty() {
    let h: Vec<u8> = b"Bearer ".to_vec();
    match screen_header(Some(&h)) {
        HeaderScreen::Token(t) => assert_eq!(t, Vec::<u8>::new()),
        _ => panic!("expected a token"),
    }
}

#[test]
fn token_screen_continues() {
    let h: Vec<u8> = b"Bearer abc".to_vec();
    let s = screen_header(Some(&h));
    assert_eq!(screen_response(&s), None);
}

#[test]
fn validation_events_map_to_responses() {
    assert_eq!(validation_response(&ValidationEvent::Verified), None);
    assert_eq!(
        validation_response(&ValidationEvent::Rejected),
        Some(AuthResponse { status: 401, body: ResponseBody::Empty })
    );
    assert_eq!(
        validation_response(&ValidationEvent::Infrastructure),
        Some(AuthResponse { status: 503, body: ResponseBody::UnavailableText })
    );
    assert_eq!(
        validation_response(&ValidationEvent::ShapeMismatch),
        Some(AuthResponse { status: 500, body: ResponseBody::ClaimsMismatchText })
    );
}

#[test]
fn server_faults_are_distinct_and_server_class() {
    let mismatch = validation_response(&ValidationEvent::ShapeMismatch).unwrap();
    let unavailable = validation_response(&ValidationEvent::Infrastructure).unwrap();
    assert!(mismatch.status >= 500);
    assert!(unavailable.status >= 500);
    assert_ne!(mismatch, unavailable);
    let rejected = validation_response(&ValidationEvent::Rejected).unwrap();
    assert_ne!(mismatch, rejected);
    assert_ne!(unavailable, rejected);
}

#[test]
fn error_events_split_server_faults() {
    let shape = AxumCognitoError::SerdeJson("missing field".to_string());
    assert_eq!(error_event(&shape), ValidationEvent::ShapeMismatch);
    let fetch = AxumCognitoError::JsonwebtokensCognito("down".to_string());
    assert_eq!(error_event(&fetch), ValidationEvent::Infrastructure);
    let build = AxumCognitoError::Jsonwebtokens("bad rules".to_string());
    assert_eq!(error_event(&build), ValidationEvent::Infrastructure);
}

#[test]
fn claims_shape_error_keeps_message() {
    let e = serde_json::from_str::<u64>("\"text\"").unwrap_err();
    match claims_shape_error(&e) {
        AxumCognitoError::SerdeJson(msg) => assert!(!msg.is_empty()),
        _ => panic!("expected a claims-shape error"),
    }
}

#[test]
fn body_text_renders() {
    assert_eq!(ResponseBody::Empty.render(), "");
    assert_eq!(
        ResponseBody::MissingHeaderText.render(),
        "Missing 'Authorization' header"
    );
    assert_eq!(ResponseBody::MalformedTokenText.render(), "Malformed token");
    assert_eq!(
        ResponseBody::UnavailableText.render(),
        "Token verification unavailable"
    );
    assert_eq!(ResponseBody::ClaimsMismatchText.render(), "Claims shape mismatch");
}

#[test]
fn token_use_markers() {
    assert_eq!(OAuthTokenType::Id.token_use_marker(), "id");
    assert_eq!(OAuthTokenType::Access.token_use_marker(), "access");
}

#[test]
fn validator_new_derives_issuer() {
    let v = CognitoValidator::new(OAuthTokenType::Id, "C1", "P1", "R1").unwrap();
    assert_eq!(v.rules.issuer, ISS);
    assert_eq!(v.rules.client_id, "C1");
    assert!(matches!(v.rules.token_type, OAuthTokenType::Id));
}

#[test]
fn good_identity_claims_accepted() {
    let rules = id_rules();
    let c = claims(Some(u64::MAX), ISS, Some("C1"), None, "id");
    assert!(rules.check_claims(&c, 1_700_000_000));
}

#[test]
fn wrong_audience_rejected() {
    let rules = id_rules();
    let c = claims(Some(u64::MAX), ISS, Some("C2"), None, "id");
    assert!(!rules.check_claims(&c, 1_700_000_000));
}

#[test]
fn missing_audience_rejected() {
    let rules = id_rules();
    let c = claims(Some(u64::MAX), ISS, None, Some("C1"), "id");
    assert!(!rules.check_claims(&c, 1_700_000_000));
}

#[test]
fn expired_token_rejected() {
    let rules = id_rules();
    let c = claims(Some(1_000), ISS, Some("C1"), None, "id");
    assert!(!rules.check_claims(&c, 1_000));
    assert!(rules.check_claims(&c, 999));
}

#[test]
fn missing_exp_passes_freshness() {
    let rules = id_rules();
    let c = claims(None, ISS, Some("C1"), None, "id");
    assert!(rules.check_claims(&c, 1_700_000_000));
}

#[test]
fn wrong_issuer_rejected() {
    let rules = id_rules();
    let c = claims(
        Some(u64::MAX),
        "https://cognito-idp.R2.amazonaws.com/P1",
        Some("C1"),
        None,
        "id",
    );
    assert!(!rules.check_claims(&c, 1_700_000_000));
}

#[test]
fn wrong_category_marker_rejected() {
    let rules = id_rules();
    let c = claims(Some(u64::MAX), ISS, Some("C1"), None, "access");
    assert!(!rules.check_claims(&c, 1_700_000_000));
}

#[test]
fn access_token_binds_through_client_id() {
    let v = CognitoValidator::new(OAuthTokenType::Access, "C1", "P1", "R1").unwrap();
    let rules = v.rules;
    let good = claims(Some(u64::MAX), ISS, None, Some("C1"), "access");
    assert!(rules.check_claims(&good, 1_700_000_000));
    let wrong_binding = claims(Some(u64::MAX), ISS, Some("C1"), None, "access");
    assert!(!rules.check_claims(&wrong_binding, 1_700_000_000));
    let wrong_marker = claims(Some(u64::MAX), ISS, None, Some("C1"), "id");
    assert!(!rules.check_claims(&wrong_marker, 1_700_000_000));
}

#[test]
fn malformed_token_attempt_is_rejected() {
    let v = CognitoValidator::new(OAuthTokenType::Id, "C1", "P1", "R1").unwrap();
    let attempt = v.try_validate("not-a-jwt");
    assert!(matches!(attempt, CachedVerification::Rejected));
    assert_eq!(attempt.event(), Some(ValidationEvent::Rejected));
}

#[test]
fn unknown_key_id_is_a_missing_key() {
    let v = CognitoValidator::new(OAuthTokenType::Id, "C1", "P1", "R1").unwrap();
    // A structurally valid token naming key id `k1`; the directory was
    // never fetched, so the key cannot be cached.
    let token = "eyJhbGciOiJSUzI1NiIsImtpZCI6ImsxIn0.eyJzdWIiOiJ1In0.c2ln";
    let attempt = v.try_validate(token);
    match attempt {
        CachedVerification::MissingKey(last_fetch) => assert!(last_fetch.is_none()),
        _ => panic!("expected a missing key"),
    }
    let attempt = v.try_validate(token);
    assert!(attempt.event().is_none());
}

#[test]
fn missing_key_plans_are_rate_limited() {
    let min = MIN_JWKS_FETCH_INTERVAL_SECS;
    assert_eq!(plan_missing_key(false, None, min), MissingKeyPlan::Refresh);
    assert_eq!(plan_missing_key(false, Some(min), min), MissingKeyPlan::Refresh);
    assert_eq!(plan_missing_key(false, Some(min - 1), min), MissingKeyPlan::Reject);
    assert_eq!(plan_missing_key(false, Some(0), min), MissingKeyPlan::Reject);
    assert_eq!(plan_missing_key(true, None, min), MissingKeyPlan::Reject);
    assert_eq!(plan_missing_key(true, Some(min), min), MissingKeyPlan::Reject);
}

#[test]
fn attempt_events_settle_responses() {
    assert_eq!(
        CachedVerification::Rejected.event(),
        Some(ValidationEvent::Rejected)
    );
    assert_eq!(
        CachedVerification::Unavailable.event(),
        Some(ValidationEvent::Infrastructure)
    );
    assert!(CachedVerification::MissingKey(None).event().is_none());
}

#[test]
fn key_fetch_error_keeps_message() {
    let e = key_fetch_error(&Error::NetworkError(ErrorDetails::new("down")));
    match e {
        AxumCognitoError::JsonwebtokensCognito(msg) => {
            assert!(msg.contains("down"));
        },
        _ => panic!("expected a key-set error"),
    }
    let wrapped = AxumCognitoError::JsonwebtokensCognito("boom".to_string());
    assert_eq!(wrapped.message(), "boom");
}

#[test]
fn identity_scenario_end_to_end() {
    // Pool `P1`, region `R1`, client `C1`, identity tokens.
    let v = CognitoValidator::new(OAuthTokenType::Id, "C1", "P1", "R1").unwrap();

    // A well-formed header yields the compact token for the validator.
    let header: Vec<u8> = b"Bearer h.p.s".to_vec();
    let token = match screen_header(Some(&header)) {
        HeaderScreen::Token(t) => t,
        _ => panic!("expected a token"),
    };
    assert_eq!(token, b"h.p.s".to_vec());

    // Correct claims are accepted; the same claims with `aud` changed to
    // `C2` are rejected, all else held constant.
    let good = claims(Some(u64::MAX), ISS, Some("C1"), None, "id");
    assert!(v.rules.check_claims(&good, 1_700_000_000));
    let wrong_aud = claims(Some(u64::MAX), ISS, Some("C2"), None, "id");
    assert!(!v.rules.check_claims(&wrong_aud, 1_700_000_000));

    // A `Bear ` scheme (no `Bearer `) is malformed: 400, no validation.
    let bad_scheme: Vec<u8> = b"Bear C1.h.p".to_vec();
    let s = screen_header(Some(&bad_scheme));
    assert_eq!(
        screen_response(&s),
        Some(AuthResponse { status: 400, body: ResponseBody::MalformedTokenText })
    );
}
