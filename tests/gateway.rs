use sygma::credential::{PrefixCheck, VALID_TOKEN_PREFIX};
use sygma::pipeline::{complete, screen_request, Admission, Response};
use sygma::request::parse_request;
use sygma::verification::{verify_zero_trust_token, TrustVerifier};

fn run(verifier: &mut TrustVerifier<PrefixCheck>, raw: &str, reachable: bool) -> String {
    match screen_request(verifier, raw) {
        Admission::Respond(r) => r.body(),
        Admission::ProbeDownstream { payload } => complete(payload, reachable).body(),
    }
}

#[test]
fn test_verify_valid_token() {
    let mut v = TrustVerifier::with_defaults();
    let token = "AUTH_SYGMA_VALID_TEST_TOKEN";
    assert!(verify_zero_trust_token(&mut v, token), "O token válido deve passar no ZTC.");
}

#[test]
fn test_verify_invalid_token() {
    let mut v = TrustVerifier::with_defaults();
    let token = "FRAUD_ATTEMPT_TEST_TOKEN";
    assert!(!verify_zero_trust_token(&mut v, token), "O token inválido deve falhar no ZTC.");
}

#[test]
fn test_caching_behavior() {
    let mut v = TrustVerifier::with_defaults();
    let token = "AUTH_SYGMA_VALID_CACHE_TEST";
    let is_valid = verify_zero_trust_token(&mut v, token);
    assert!(is_valid, "A primeira verificação de token válido deve passar.");
    let cached_result = v.cache().get(token).is_some();
    assert!(cached_result, "O token deve ser encontrado no cache após a primeira inserção (Prova de persistência).");
}

#[test]
fn prefix_decides_validity() {
    let mut v = TrustVerifier::with_defaults();
    assert_eq!(VALID_TOKEN_PREFIX, "AUTH_SYGMA_VALID_");
    assert!(verify_zero_trust_token(&mut v, "AUTH_SYGMA_VALID_"));
    assert!(verify_zero_trust_token(&mut v, "AUTH_SYGMA_VALID_x"));
    assert!(!verify_zero_trust_token(&mut v, "AUTH_SYGMA_VALID"));
    assert!(!verify_zero_trust_token(&mut v, "auth_sygma_valid_x"));
    assert!(!verify_zero_trust_token(&mut v, "X_AUTH_SYGMA_VALID_x"));
    assert!(!verify_zero_trust_token(&mut v, ""));
}

#[test]
fn second_verification_is_served_from_cache() {
    let mut v = TrustVerifier::with_defaults();
    assert!(verify_zero_trust_token(&mut v, "AUTH_SYGMA_VALID_77"));
    assert_eq!(v.slow_path_runs(), 1);
    assert!(verify_zero_trust_token(&mut v, "AUTH_SYGMA_VALID_77"));
    assert_eq!(v.slow_path_runs(), 1);
}

#[test]
fn rejected_token_is_never_cached() {
    let mut v = TrustVerifier::with_defaults();
    assert!(!verify_zero_trust_token(&mut v, "FRAUD_ATTEMPT_5"));
    assert!(!v.cache().contains("FRAUD_ATTEMPT_5"));
    assert_eq!(v.cache().get("FRAUD_ATTEMPT_5"), None);
    assert!(!verify_zero_trust_token(&mut v, "FRAUD_ATTEMPT_5"));
    assert_eq!(v.slow_path_runs(), 2);
}

#[test]
fn expired_entry_is_checked_again() {
    let mut v = TrustVerifier::new(PrefixCheck, 100, 0);
    assert!(verify_zero_trust_token(&mut v, "AUTH_SYGMA_VALID_1"));
    assert!(verify_zero_trust_token(&mut v, "AUTH_SYGMA_VALID_1"));
    assert_eq!(v.slow_path_runs(), 2);
    assert_eq!(v.cache().get("AUTH_SYGMA_VALID_1"), None);
}

#[test]
fn cache_never_exceeds_capacity() {
    let mut v = TrustVerifier::new(PrefixCheck, 5, 300);
    for i in 0..50u64 {
        let token = format!("AUTH_SYGMA_VALID_{}", i);
        assert!(verify_zero_trust_token(&mut v, &token));
    }
    assert!(v.cache().entry_count() <= 5);
    assert_eq!(v.cache().capacity(), 5);
    assert_eq!(v.cache().ttl_secs(), 300);
}

#[test]
fn accepted_request_mentions_payload() {
    let mut v = TrustVerifier::with_defaults();
    let body = run(&mut v, "AUTH_SYGMA_VALID_123|ORDER42", true);
    assert!(body.starts_with("200 OK:"));
    assert!(body.contains("ORDER42"));
    assert_eq!(body, "200 OK: Payload ORDER42 submetido ao Kernel T1. Aguardando Settlement.");
}

#[test]
fn fraud_request_is_denied_and_not_cached() {
    let mut v = TrustVerifier::with_defaults();
    let body = run(&mut v, "FRAUD_ATTEMPT_1|X", true);
    assert_eq!(body, "403 ACCESS DENIED: Zero Trust Violation");
    assert!(!v.cache().contains("FRAUD_ATTEMPT_1"));
}

#[test]
fn unreachable_downstream_gives_unavailable() {
    let mut v = TrustVerifier::with_defaults();
    let body = run(&mut v, "AUTH_SYGMA_VALID_9|X", false);
    assert_eq!(body, "503 SERVICE UNAVAILABLE: Kernel T1 Offline");
}

#[test]
fn request_without_delimiter_is_malformed() {
    let mut v = TrustVerifier::with_defaults();
    let body = run(&mut v, "justastring", true);
    assert_eq!(body, "400 ERROR: Invalid Sygma Request Format");
    assert_eq!(v.slow_path_runs(), 0);
}

#[test]
fn repeated_request_checks_token_once() {
    let mut v = TrustVerifier::with_defaults();
    let first = run(&mut v, "AUTH_SYGMA_VALID_9|A", true);
    assert!(first.starts_with("200 OK:"));
    assert_eq!(v.slow_path_runs(), 1);
    let second = run(&mut v, "AUTH_SYGMA_VALID_9|A", true);
    assert!(second.starts_with("200 OK:"));
    assert_eq!(v.slow_path_runs(), 1);
}

#[test]
fn rejected_credential_asks_for_no_probe() {
    let mut v = TrustVerifier::with_defaults();
    match screen_request(&mut v, "FRAUD_ATTEMPT_2|Y") {
        Admission::Respond(r) => assert_eq!(r.status_code(), 403),
        Admission::ProbeDownstream { .. } => panic!("probe after a rejected credential"),
    }
}

#[test]
fn parse_trims_fields_and_ignores_extra_ones() {
    let r = parse_request("  AUTH_SYGMA_VALID_1 \t|  ORDER 7 \n|rest|more").unwrap();
    assert_eq!(r.token, "AUTH_SYGMA_VALID_1");
    assert_eq!(r.payload, "ORDER 7");
    let e = parse_request("|").unwrap();
    assert_eq!(e.token, "");
    assert_eq!(e.payload, "");
    assert!(parse_request("").is_none());
    assert!(parse_request("no delimiter here").is_none());
}

#[test]
fn padded_token_is_accepted_after_trimming() {
    let mut v = TrustVerifier::with_defaults();
    let body = run(&mut v, " AUTH_SYGMA_VALID_4 | P9 ", true);
    assert_eq!(body, "200 OK: Payload P9 submetido ao Kernel T1. Aguardando Settlement.");
}

#[test]
fn status_codes_match_classes() {
    assert_eq!(Response::Malformed.status_code(), 400);
    assert_eq!(Response::CredentialRejected.status_code(), 403);
    assert_eq!(Response::DownstreamUnavailable.status_code(), 503);
    assert_eq!(Response::Accepted { payload: String::from("z") }.status_code(), 200);
}
