use sygma::client::{command_text, generate_zkp_payload, payload_from_draws, token_with_suffix, INVALID_TOKEN_PREFIX};
use sygma::decimal::decimal_string;
use sygma::kernel::{execute_atomic_settlement, ZKProof};

#[test]
fn decimal_rendering() {
    assert_eq!(decimal_string(0), "0");
    assert_eq!(decimal_string(7), "7");
    assert_eq!(decimal_string(42), "42");
    assert_eq!(decimal_string(1000), "1000");
    assert_eq!(decimal_string(u64::MAX), "18446744073709551615");
}

#[test]
fn proof_from_draws() {
    let p = ZKProof::from_draws(8, 123);
    assert!(p.verify());
    assert_eq!(p.proof_hash(), "ZKP_COMMITMENT_123");
    assert!(execute_atomic_settlement(p));
    let q = ZKProof::from_draws(9, 0);
    assert!(!q.verify());
    assert_eq!(q.proof_hash(), "ZKP_COMMITMENT_0");
    assert!(!execute_atomic_settlement(q));
}

#[test]
fn random_proof_has_commitment_label() {
    let p = ZKProof::new();
    let label = p.proof_hash().clone();
    let digits = label.strip_prefix("ZKP_COMMITMENT_").unwrap();
    assert!(digits.parse::<u64>().is_ok());
}

#[test]
fn payload_layout() {
    assert_eq!(payload_from_draws(1, 22, 333), "ZKP_HASH_S:1_R:22_A:333");
}

#[test]
fn random_payload_amount_in_range() {
    for _ in 0..50 {
        let p = generate_zkp_payload();
        let amount: u64 = p.rsplit("_A:").next().unwrap().parse().unwrap();
        assert!((100..10000).contains(&amount));
        assert!(p.starts_with("ZKP_HASH_S:"));
    }
}

#[test]
fn command_and_token_text() {
    assert_eq!(command_text("AUTH_SYGMA_VALID_5", "P"), "AUTH_SYGMA_VALID_5|P");
    assert_eq!(token_with_suffix(INVALID_TOKEN_PREFIX, 17), "FRAUD_ATTEMPT_17");
}
