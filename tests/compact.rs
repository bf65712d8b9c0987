use fingerprinting::compact::Compact;
use fingerprinting::error::FingerprintError;
use fingerprinting::field::Scalar;

#[test]
pub fn compact_test() {
    let fr = Scalar::random();
    let compact_fr = fr.compact();
    let back_to_fr: Scalar = Compact::unwrap(&compact_fr).unwrap();
    assert_eq!(fr, back_to_fr);
}

#[test]
fn compact_of_small_values() {
    assert_eq!(Scalar::from_u64(0).compact(), "11111111111111111111111111111111");
    let one = Scalar::from_u64(1).compact();
    assert_ne!(one, "11111111111111111111111111111111");
    let back: Scalar = Compact::unwrap(&one).unwrap();
    assert_eq!(back, Scalar::from_u64(1));
}

#[test]
fn compact_bytes_round_trip() {
    let bytes: Vec<u8> = (0u8..64).collect();
    let text = bytes.compact();
    let back: Vec<u8> = Compact::unwrap(&text).unwrap();
    assert_eq!(back, bytes);
    assert_eq!(vec![0u8, 0, 1].compact(), "112");
}

#[test]
fn unwrap_rejects_wrong_length_and_bad_text() {
    let short = vec![1u8; 31].compact();
    assert_eq!(<Scalar as Compact>::unwrap(&short), Err(FingerprintError::InvalidInput));
    let long = vec![1u8; 33].compact();
    assert_eq!(<Scalar as Compact>::unwrap(&long), Err(FingerprintError::InvalidInput));
    assert_eq!(<Scalar as Compact>::unwrap("0OIl"), Err(FingerprintError::InvalidInput));
}

#[test]
fn unwrap_rejects_non_canonical_scalars() {
    let all_ones = vec![0xFFu8; 32].compact();
    assert_eq!(<Scalar as Compact>::unwrap(&all_ones), Err(FingerprintError::InvalidInput));
}
