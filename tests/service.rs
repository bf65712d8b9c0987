use fingerprinting::compact::Compact;
use fingerprinting::error::FingerprintError;
use fingerprinting::field::Scalar;
use fingerprinting::protocols::NaiveProtocol;
use fingerprinting::service::{
    transaction_from_message, BatchItem, FingerprintService, MoneyMessage, TimestampMessage,
    TransactionMessage,
};

const SECONDS: u64 = 1758026096; // 2025-09-16T12:34:56Z

fn message(bic: &str, currency: i32, seconds: u64) -> TransactionMessage {
    TransactionMessage {
        bic: bic.to_string(),
        amount: Some(MoneyMessage { currency, units: 1000, atto: 0 }),
        date_time: Some(TimestampMessage { seconds, nanos: 0 }),
    }
}

fn service() -> FingerprintService<NaiveProtocol> {
    FingerprintService::new(NaiveProtocol::new(Scalar::from_u64(42)))
}

#[test]
fn test_fingerprint_computation() {
    let response = service()
        .compute_single_fingerprint(Some(message("BCEELU21", 978, SECONDS)))
        .unwrap();
    assert_eq!(response.fingerprint.len(), 32);
    let fr: Scalar = Compact::unwrap(&response.compact_fingerprint).unwrap();
    assert_eq!(fr.to_bytes().to_vec(), response.fingerprint);
    println!("Fingerprint: {} fr {}", response.compact_fingerprint, fr.compact());
}

#[test]
fn wire_conversion_checks_every_part() {
    let tx = transaction_from_message(message("BCEELU21", 978, SECONDS)).unwrap();
    assert_eq!(tx.bic, "BCEELU21");
    assert_eq!(tx.amount.currency, 978);
    assert_eq!(tx.amount.amount_base, 1000);
    assert_eq!(tx.date_time.seconds, SECONDS as i64);

    let mut m = message("BCEELU21", 978, SECONDS);
    m.amount = None;
    assert_eq!(transaction_from_message(m).err(), Some(FingerprintError::InvalidInput));
    let mut m = message("BCEELU21", 978, SECONDS);
    m.date_time = None;
    assert_eq!(transaction_from_message(m).err(), Some(FingerprintError::InvalidInput));
    assert_eq!(
        transaction_from_message(message("BCEELU21", 978, u64::MAX)).err(),
        Some(FingerprintError::InvalidInput)
    );
    assert_eq!(
        transaction_from_message(message("BCEELU21", -978, SECONDS)).err(),
        Some(FingerprintError::InvalidInput)
    );
    assert_eq!(
        transaction_from_message(message("BCEELU21", 70000, SECONDS)).err(),
        Some(FingerprintError::InvalidInput)
    );
    let mut m = message("BCEELU21", 978, SECONDS);
    m.date_time = Some(TimestampMessage { seconds: SECONDS, nanos: 2_000_000_000 });
    assert_eq!(transaction_from_message(m).err(), Some(FingerprintError::InvalidInput));
}

#[test]
fn single_requests_are_validated() {
    let s = service();
    assert_eq!(s.compute_single_fingerprint(None).err(), Some(FingerprintError::InvalidInput));
    assert_eq!(
        s.compute_single_fingerprint(Some(message("BCEELU2", 978, SECONDS))).err(),
        Some(FingerprintError::InvalidInput)
    );
    assert_eq!(
        s.compute_single_fingerprint(Some(message("BCEELU21", 978, 1735689599))).err(),
        Some(FingerprintError::InvalidInput)
    );
}

#[test]
fn batch_keeps_item_ids() {
    let s = service();
    let items = vec![
        BatchItem { item_id: 7, transaction_data: Some(message("BCEELU21", 978, SECONDS)) },
        BatchItem { item_id: 3, transaction_data: None },
        BatchItem { item_id: 9, transaction_data: Some(message("BCEELU21XXX", 978, SECONDS)) },
    ];
    let responses = s.compute_batch_fingerprint(items);
    assert_eq!(responses.len(), 3);
    assert_eq!(responses[0].item_id, 7);
    assert_eq!(responses[1].item_id, 3);
    assert_eq!(responses[2].item_id, 9);
    assert_eq!(responses[1].fingerprint.as_ref().err(), Some(&FingerprintError::InvalidInput));
    let a = responses[0].fingerprint.as_ref().unwrap();
    let c = responses[2].fingerprint.as_ref().unwrap();
    assert_eq!(a.fingerprint, c.fingerprint);
    assert_eq!(a.compact_fingerprint, c.compact_fingerprint);
}
