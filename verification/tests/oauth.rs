//! Tests for the PKCE/OAuth bootstrap logic.

use base64::Engine as _;
use sha2::Digest as _;
use spotatui::player::oauth::{
    build_auth_url, check_callback, generate_state, generate_verifier, oauth_scopes,
    parse_token_response, pkce_challenge, redirect_uri_for, streaming_identity_provider,
    success_response, token_request_form, AuthError,
};

#[test]
fn pkce_challenge_is_b64url_of_sha256() {
    // For a fixed verifier the challenge must be exactly
    // base64url(SHA-256(verifier)), unpadded.
    let verifier = "fixed-test-verifier-0123456789";
    let expected = base64::engine::general_purpose::URL_SAFE_NO_PAD
        .encode(sha2::Sha256::digest(verifier.as_bytes()));
    assert_eq!(pkce_challenge(verifier), expected);
    // A known value, computed from the empty verifier: the digest of the
    // empty string.
    assert_eq!(
        pkce_challenge(""),
        "47DEQpj8HBSa-_TImW-5JCeuQeRkm5NMpJWZG3hSuFU"
    );
}

#[test]
fn verifier_and_state_have_documented_lengths() {
    let v = generate_verifier();
    let s = generate_state();
    assert_eq!(v.len(), 86);
    assert_eq!(s.len(), 22);
    assert!(v.is_ascii() && s.is_ascii());
    // Two fresh verifiers almost surely differ.
    assert_ne!(generate_verifier(), v);
}

#[test]
fn redirect_uri_formats_port_and_path() {
    assert_eq!(redirect_uri_for(8898, "/login"), "http://127.0.0.1:8898/login");
    assert_eq!(redirect_uri_for(80, "/cb"), "http://127.0.0.1:80/cb");
    assert_eq!(redirect_uri_for(65535, "/"), "http://127.0.0.1:65535/");
}

#[test]
fn auth_url_contains_encoded_fields() {
    let url = build_auth_url(
        "https://accounts.spotify.com/authorize",
        "clientid",
        "http://127.0.0.1:8898/login",
        "streaming user-read-private",
        "statetoken",
        "challengetoken",
    );
    assert_eq!(
        url,
        "https://accounts.spotify.com/authorize?client_id=clientid&response_type=code&\
         redirect_uri=http%3A%2F%2F127.0.0.1%3A8898%2Flogin&\
         scope=streaming%20user-read-private&state=statetoken&\
         code_challenge=challengetoken&code_challenge_method=S256"
    );
}

#[test]
fn callback_with_matching_state_yields_code() {
    let line = b"GET /login?code=AQDxyz-123&state=expected HTTP/1.1".to_vec();
    let r = check_callback(&line, b"expected");
    assert_eq!(r.unwrap(), b"AQDxyz-123".to_vec());
}

#[test]
fn callback_with_mismatched_state_is_rejected() {
    // A mismatched anti-CSRF state is a hard abort: the code is never
    // handed out, so no token exchange can be attempted with it.
    let line = b"GET /login?code=AQDxyz-123&state=evil HTTP/1.1".to_vec();
    let r = check_callback(&line, b"expected");
    assert!(matches!(r, Err(AuthError::StateMismatch)));
}

#[test]
fn callback_without_code_fails_parse() {
    let line = b"GET /login?state=expected HTTP/1.1".to_vec();
    assert!(matches!(check_callback(&line, b"expected"), Err(AuthError::CallbackParseFailed)));
    let no_query = b"GET /login HTTP/1.1".to_vec();
    assert!(matches!(check_callback(&no_query, b"expected"), Err(AuthError::CallbackParseFailed)));
}

#[test]
fn callback_values_are_percent_decoded() {
    let line = b"GET /login?code=a%2Fb%2Bc+d&state=st HTTP/1.1".to_vec();
    let r = check_callback(&line, b"st");
    assert_eq!(r.unwrap(), b"a/b+c d".to_vec());
}

#[test]
fn token_response_success_extracts_token() {
    let body = "{\"access_token\":\"tok123\",\"token_type\":\"Bearer\"}";
    assert_eq!(parse_token_response(true, body).unwrap(), "tok123");
}

#[test]
fn token_response_failure_surfaces_body() {
    let r = parse_token_response(false, "bad request");
    assert!(
        matches!(r, Err(AuthError::TokenExchangeFailed(reason)) if reason == "bad request")
    );
}

#[test]
fn token_response_without_token_field_fails() {
    let r = parse_token_response(true, "{\"error\":\"invalid_grant\"}");
    assert!(
        matches!(r, Err(AuthError::TokenExchangeFailed(reason))
            if reason == "No access_token in response")
    );
    let r2 = parse_token_response(true, "not json at all");
    assert!(matches!(r2, Err(AuthError::TokenExchangeFailed(_))));
}

#[test]
fn token_form_fields() {
    let form = token_request_form("thecode", "http://127.0.0.1:8898/login", "cid", "ver");
    let expected = vec![
        ("grant_type", "authorization_code"),
        ("code", "thecode"),
        ("redirect_uri", "http://127.0.0.1:8898/login"),
        ("client_id", "cid"),
        ("code_verifier", "ver"),
    ];
    assert_eq!(form.len(), expected.len());
    for (got, want) in form.iter().zip(expected.iter()) {
        assert_eq!(got.0, want.0);
        assert_eq!(got.1, want.1);
    }
}

#[test]
fn provider_constants() {
    let p = streaming_identity_provider();
    assert_eq!(p.authorize_endpoint, "https://accounts.spotify.com/authorize");
    assert_eq!(p.token_endpoint, "https://accounts.spotify.com/api/token");
    assert_eq!(p.client_id, "65b708073fc0480ea92a077233ca87bd");
    assert_eq!(p.redirect_port, 8898);
    assert_eq!(p.redirect_path, "/login");
}

#[test]
fn scopes_and_success_page() {
    let scopes = oauth_scopes();
    assert!(scopes.starts_with("app-remote-control "));
    assert!(scopes.contains(" streaming "));
    assert!(scopes.ends_with(" user-top-read"));
    let page = success_response();
    assert!(page.starts_with("HTTP/1.1 200 OK\r\n"));
    assert!(page.contains("Authentication successful!"));
}

#[test]
fn auth_error_messages() {
    assert_eq!(AuthError::StateMismatch.message(), "CSRF state mismatch");
    assert_eq!(
        AuthError::CallbackParseFailed.message(),
        "Failed to extract authorization code"
    );
    assert_eq!(
        AuthError::TokenExchangeFailed("denied".to_string()).message(),
        "Token exchange failed: denied"
    );
}
