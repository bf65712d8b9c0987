use fingerprinting::agent::{CooperationAgentService, CooperationRequest};
use fingerprinting::error::FingerprintError;
use fingerprinting::field::Scalar;
use fingerprinting::group::Point;

fn blinded() -> Point {
    Point::hash_to_curve("TX_FINGERPRINT", &Scalar::from_u64(42).to_bytes())
}

#[test]
fn agent_answers_with_its_share_applied() {
    let share = Scalar::from_u64(17);
    let service = CooperationAgentService::new(share);
    let b = blinded();
    let request = CooperationRequest { generation: 0, blinded_value: b.to_bytes().to_vec() };
    let response = service.compute_exponent(&request).unwrap();
    assert_eq!(response.generation, 0);
    assert_eq!(response.blinded_exponent, b.mul(&share).to_bytes().to_vec());
    assert_ne!(response.blinded_exponent, b.to_bytes().to_vec());
    assert!(response.proof_of_computation.is_empty());
}

#[test]
fn agent_rejects_other_generations() {
    let service = CooperationAgentService::new(Scalar::from_u64(17));
    let request = CooperationRequest { generation: 1, blinded_value: blinded().to_bytes().to_vec() };
    assert_eq!(service.compute_exponent(&request).err(), Some(FingerprintError::InvalidInput));
}

#[test]
fn agent_rejects_wrong_lengths() {
    let service = CooperationAgentService::new(Scalar::from_u64(17));
    for len in [0usize, 31, 33, 64] {
        let request = CooperationRequest { generation: 0, blinded_value: vec![0u8; len] };
        assert_eq!(service.compute_exponent(&request).err(), Some(FingerprintError::InvalidInput));
    }
}

#[test]
fn agent_rejects_non_points() {
    let service = CooperationAgentService::new(Scalar::from_u64(17));
    // x = 0xFF..FF (with the flag bits cleared) is not below the base field's modulus.
    let mut bytes = vec![0xFFu8; 32];
    bytes[31] = 0x3F;
    let request = CooperationRequest { generation: 0, blinded_value: bytes };
    assert_eq!(service.compute_exponent(&request).err(), Some(FingerprintError::InvalidInput));
}
