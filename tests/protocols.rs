use chrono::{TimeZone, Utc};
use fingerprinting::components::UtcTimestamp;
use fingerprinting::error::FingerprintError;
use fingerprinting::field::Scalar;
use fingerprinting::fingerprint::{Fingerprint, Money, RawTransaction, TransactionFingerprintData};
use fingerprinting::group::Point;
use fingerprinting::protocols::{
    accept_answer, shard_request, AgentsTopology, CollaborativeProtocol, FingerprintProtocol,
    NaiveProtocol,
};
use fingerprinting::secret_sharing::SecretSharing;

struct LocalAgentsTopology {
    sss: SecretSharing,
    count: usize,
    reachable: Vec<usize>,
}

impl AgentsTopology for LocalAgentsTopology {
    fn count_spec(&self) -> usize {
        self.count
    }

    fn threshold_spec(&self) -> usize {
        self.sss.threshold
    }

    fn count(&self) -> usize {
        self.count
    }

    fn threshold(&self) -> usize {
        self.sss.threshold
    }

    fn obtain_shard(
        &self,
        agent: usize,
        _generation: u64,
        blinded_value: &[u8; 32],
    ) -> Result<(usize, Vec<u8>), FingerprintError> {
        if !self.reachable.contains(&agent) {
            return Err(FingerprintError::PeerUnavailable);
        }
        let point = Point::from_compressed(blinded_value).unwrap();
        let (i, e) = self.sss.compute_exponent(agent, &point);
        Ok((i, e.to_bytes().to_vec()))
    }
}

fn local_protocol(
    secret: Scalar,
    t: usize,
    n: usize,
    me: usize,
    reachable: Vec<usize>,
) -> CollaborativeProtocol<LocalAgentsTopology> {
    let sss = SecretSharing::generate(secret, t, n);
    let current_share = sss.get_share(me).unwrap();
    let topology = LocalAgentsTopology { sss, count: n, reachable };
    CollaborativeProtocol::new((me, current_share), topology)
}

fn transaction(bic: &str, amount: (u64, u64), seconds: i64) -> RawTransaction {
    RawTransaction {
        bic: bic.to_string(),
        amount: Money { amount_base: amount.0, amount_atto: amount.1, currency: 978 },
        date_time: UtcTimestamp { seconds, nanos: 0 },
    }
}

fn sample_seconds() -> i64 {
    Utc.with_ymd_and_hms(2025, 9, 16, 12, 34, 56).unwrap().timestamp()
}

#[test]
fn test_cooperative_fingerprint_protocol() {
    let secret = Scalar::random();
    let coop_protocol = local_protocol(secret, 6, 10, 1, (1..=10).collect());
    let naive_protocol = NaiveProtocol::new(secret);
    let origin = Scalar::from_u64(42);

    let processed = coop_protocol.process(&origin).unwrap();
    let naive_processed = naive_protocol.process(&origin).unwrap();
    println!("processed: {:?}", processed);
    println!("naive_processed: {:?}", naive_processed);
    assert_eq!(processed, naive_processed);
}

#[test]
fn test_fingerprint_protocol() {
    let secret = Scalar::random();
    let origin = Scalar::from_u64(42);
    let fingerprint_protocol = NaiveProtocol::new(secret);
    let processed = fingerprint_protocol.process(&origin).unwrap();
    println!("processed: {:?}", processed);
    assert_eq!(processed, fingerprint_protocol.process(&origin).unwrap());
}

#[test]
fn cooperative_equals_naive_for_every_quorum() {
    let secret = Scalar::from_u64(42);
    let naive = NaiveProtocol::new(secret).process(&Scalar::from_u64(7)).unwrap();
    for reachable in [vec![1, 2, 3], vec![3, 4, 5], vec![1, 2, 5], vec![1, 2, 3, 4, 5]] {
        let coop = local_protocol(secret, 3, 5, 3, reachable);
        assert_eq!(coop.process(&Scalar::from_u64(7)).unwrap(), naive);
    }
}

#[test]
fn cooperative_with_threshold_one_needs_no_peer() {
    let secret = Scalar::random();
    let coop = local_protocol(secret, 1, 4, 2, vec![]);
    let u = Scalar::from_u64(5);
    assert_eq!(coop.process(&u).unwrap(), NaiveProtocol::new(secret).process(&u).unwrap());
}

#[test]
fn quorum_failure_with_too_few_peers() {
    let secret = Scalar::random();
    // Threshold 3 needs two peers besides agent 1; only agent 2 answers.
    let coop = local_protocol(secret, 3, 5, 1, vec![1, 2]);
    assert_eq!(coop.process(&Scalar::from_u64(42)), Err(FingerprintError::QuorumUnavailable));

    let tx = TransactionFingerprintData::try_from(transaction("BCEELU21", (1000, 0), sample_seconds())).unwrap();
    assert_eq!(tx.complete_fingerprint(&coop), Err(FingerprintError::QuorumUnavailable));
}

#[test]
fn combine_reports_quorum_unavailable() {
    let secret = Scalar::from_u64(42);
    let coop = local_protocol(secret, 2, 3, 1, vec![]);
    let r = Scalar::from_u64(3);
    let blinded = Point::hash_to_curve("TX_FINGERPRINT", &Scalar::from_u64(9).to_bytes()).mul(&r);
    assert_eq!(
        coop.combine(&r, &blinded, vec![], vec![], 2),
        Err(FingerprintError::QuorumUnavailable)
    );
}

#[test]
fn fingerprints_agree_between_cooperative_and_naive() {
    let key = Scalar::from_u64(42);
    let tx = TransactionFingerprintData::try_from(transaction("BCEELU21", (1000, 0), sample_seconds())).unwrap();
    let naive = tx.complete_fingerprint(&NaiveProtocol::new(key)).unwrap();
    let coop = local_protocol(key, 6, 10, 4, (1..=10).collect());
    assert_eq!(tx.complete_fingerprint(&coop).unwrap(), naive);
}

struct NoThresholdTopology;

impl AgentsTopology for NoThresholdTopology {
    fn count_spec(&self) -> usize {
        3
    }

    fn threshold_spec(&self) -> usize {
        0
    }

    fn count(&self) -> usize {
        3
    }

    fn threshold(&self) -> usize {
        0
    }

    fn obtain_shard(
        &self,
        _agent: usize,
        _generation: u64,
        _blinded_value: &[u8; 32],
    ) -> Result<(usize, Vec<u8>), FingerprintError> {
        Err(FingerprintError::PeerUnavailable)
    }
}

#[test]
fn zero_threshold_is_a_configuration_error() {
    let coop = CollaborativeProtocol::new((1, Scalar::from_u64(5)), NoThresholdTopology);
    assert_eq!(coop.process(&Scalar::from_u64(1)), Err(FingerprintError::ConfigInvalid));
}

#[test]
fn peers_answering_for_someone_else_are_dropped() {
    struct Impostor(SecretSharing);
    impl AgentsTopology for Impostor {
        fn count_spec(&self) -> usize {
            3
        }
        fn threshold_spec(&self) -> usize {
            2
        }
        fn count(&self) -> usize {
            3
        }
        fn threshold(&self) -> usize {
            2
        }
        fn obtain_shard(
            &self,
            agent: usize,
            _generation: u64,
            blinded_value: &[u8; 32],
        ) -> Result<(usize, Vec<u8>), FingerprintError> {
            let point = Point::from_compressed(blinded_value).unwrap();
            let (_, e) = self.0.compute_exponent(agent, &point);
            Ok((agent % 3 + 1, e.to_bytes().to_vec()))
        }
    }
    let sss = SecretSharing::generate(Scalar::from_u64(9), 2, 3);
    let share = sss.get_share(1).unwrap();
    let coop = CollaborativeProtocol::new((1, share), Impostor(sss));
    assert_eq!(coop.process(&Scalar::from_u64(1)), Err(FingerprintError::QuorumUnavailable));
}

#[test]
fn request_carries_generation_zero_and_the_blinded_point() {
    let u = Scalar::from_u64(11);
    let r = Scalar::from_u64(5);
    let (request, blinded) = shard_request(&u, &r);
    assert_eq!(request.generation, 0);
    let h = Point::hash_to_curve("TX_FINGERPRINT", &u.to_bytes());
    assert_eq!(request.blinded_value, h.mul(&r).to_bytes());
    assert_eq!(blinded.to_bytes(), request.blinded_value);
    assert_ne!(request.blinded_value, h.to_bytes());
}

#[test]
fn answers_are_checked() {
    let p = Point::hash_to_curve("TX_FINGERPRINT", &Scalar::from_u64(3).to_bytes());
    let bytes = p.to_bytes().to_vec();
    assert_eq!(accept_answer(2, Ok((2, bytes.clone()))).unwrap().to_bytes(), p.to_bytes());
    assert!(accept_answer(2, Ok((3, bytes.clone()))).is_none());
    assert!(accept_answer(2, Ok((2, bytes[..31].to_vec()))).is_none());
    let mut bad = vec![0xFFu8; 32];
    bad[31] = 0x3F;
    assert!(accept_answer(2, Ok((2, bad))).is_none());
    assert!(accept_answer(2, Err(FingerprintError::PeerUnavailable)).is_none());
}

#[test]
fn failed_peers_are_passed_over() {
    let secret = Scalar::from_u64(77);
    let u = Scalar::from_u64(8);
    let naive = NaiveProtocol::new(secret).process(&u).unwrap();
    // Agents 2, 3 and 5 fail; 4, 6 and 7 complete the quorum of 4 with agent 1.
    let coop = local_protocol(secret, 4, 7, 1, vec![4, 6, 7]);
    assert_eq!(coop.process(&u).unwrap(), naive);
}
