use fingerprinting::field::Scalar;
use fingerprinting::secret_sharing::SecretSharing;

fn reconstruct(sharing: &SecretSharing, indices: &[usize]) -> Scalar {
    let mut reconstructed = Scalar::from_u64(0);
    for &i in indices {
        let lambda_i = SecretSharing::lagrange_coefficient(i, indices);
        let share = sharing.get_share(i).unwrap();
        reconstructed = reconstructed.add(&share.mul(&lambda_i));
    }
    reconstructed
}

#[test]
fn test_basic_secret_reconstruction() {
    let secret = Scalar::random();
    let sharing = SecretSharing::generate(secret, 3, 5);
    let indices = vec![1, 2, 3];
    let reconstructed = reconstruct(&sharing, &indices);
    assert_eq!(secret, reconstructed, "Secret reconstruction failed");
}

#[test]
fn test_any_threshold_subset_reconstructs() {
    let secret = Scalar::random();
    let sharing = SecretSharing::generate(secret, 3, 7);
    let test_combinations = vec![vec![1, 2, 3], vec![2, 4, 6], vec![1, 5, 7], vec![3, 4, 5]];
    for indices in test_combinations {
        let reconstructed = reconstruct(&sharing, &indices);
        assert_eq!(
            secret, reconstructed,
            "Failed to reconstruct with indices {:?}",
            indices
        );
    }
}

#[test]
fn test_threshold_one() {
    let secret = Scalar::from_u64(42);
    let sharing = SecretSharing::generate(secret, 1, 3);
    for i in 1..=3 {
        let indices = vec![i];
        let lambda = SecretSharing::lagrange_coefficient(i, &indices);
        let reconstructed = sharing.get_share(i).unwrap().mul(&lambda);
        assert_eq!(secret, reconstructed, "Failed with single share {}", i);
    }
}

#[test]
fn test_threshold_equals_total() {
    let secret = Scalar::random();
    let sharing = SecretSharing::generate(secret, 5, 5);
    let indices: Vec<usize> = (1..=5).collect();
    assert_eq!(secret, reconstruct(&sharing, &indices));
}

#[test]
fn test_lagrange_coefficient_sum_to_one() {
    let indices = vec![1, 3, 5, 7];
    let mut sum = Scalar::from_u64(0);
    for &i in &indices {
        sum = sum.add(&SecretSharing::lagrange_coefficient(i, &indices));
    }
    assert_eq!(sum, Scalar::from_u64(1), "Lagrange coefficients don't sum to 1");
}

#[test]
fn test_lagrange_coefficient_formula() {
    let indices = vec![1, 2, 3];
    let lambda_1 = SecretSharing::lagrange_coefficient(1, &indices);
    let lambda_2 = SecretSharing::lagrange_coefficient(2, &indices);
    let lambda_3 = SecretSharing::lagrange_coefficient(3, &indices);

    assert_eq!(lambda_1, Scalar::from_u64(3));
    assert_eq!(lambda_2, Scalar::from_u64(3).neg());
    assert_eq!(lambda_3, Scalar::from_u64(1));
    assert_eq!(lambda_1.add(&lambda_2).add(&lambda_3), Scalar::from_u64(1));
}

#[test]
fn test_deterministic_shares() {
    let secret = Scalar::from_u64(12345);
    let sharing = SecretSharing::generate(secret, 3, 5);
    assert_eq!(secret, reconstruct(&sharing, &[1, 2, 3]));
}

#[test]
fn test_large_threshold() {
    let secret = Scalar::random();
    let sharing = SecretSharing::generate(secret, 20, 30);
    let indices: Vec<usize> = (1..=20).collect();
    assert_eq!(secret, reconstruct(&sharing, &indices));
}

#[test]
fn test_shares_are_distinct() {
    let secret = Scalar::from_u64(999);
    let sharing = SecretSharing::generate(secret, 3, 5);
    let shares: Vec<Scalar> = (1..=5).map(|i| sharing.get_share(i).unwrap()).collect();
    for i in 0..shares.len() {
        for j in (i + 1)..shares.len() {
            assert_ne!(
                shares[i],
                shares[j],
                "Shares {} and {} are identical",
                i + 1,
                j + 1
            );
        }
    }
}

#[test]
fn test_share_not_equal_to_secret() {
    let secret = Scalar::random();
    let sharing = SecretSharing::generate(secret, 3, 5);
    for i in 1..=5 {
        if sharing.threshold > 1 {
            assert_ne!(
                sharing.get_share(i).unwrap(),
                secret,
                "Share {} equals secret (extremely unlikely)",
                i
            );
        }
    }
}

#[test]
fn test_reconstruction_with_non_sequential_indices() {
    let secret = Scalar::random();
    let sharing = SecretSharing::generate(secret, 4, 10);
    assert_eq!(secret, reconstruct(&sharing, &[2, 5, 7, 9]));
}

#[test]
fn test_zero_secret() {
    let secret = Scalar::from_u64(0);
    let sharing = SecretSharing::generate(secret, 3, 5);
    assert_eq!(Scalar::from_u64(0), reconstruct(&sharing, &[1, 2, 3]));
}

#[test]
fn test_polynomial_degree() {
    let secret = Scalar::from_u64(100);
    let sharing = SecretSharing::generate(secret, 3, 10);
    let combinations = vec![vec![1, 2, 3], vec![4, 5, 6], vec![7, 8, 9]];
    let mut results = Vec::new();
    for indices in combinations {
        results.push(reconstruct(&sharing, &indices));
    }
    for result in results {
        assert_eq!(secret, result);
    }
}

#[test]
fn reconstruction_of_42_from_three_quorums() {
    let secret = Scalar::from_u64(42);
    let sharing = SecretSharing::generate(secret, 3, 5);
    for indices in [vec![1, 2, 3], vec![2, 4, 5], vec![1, 3, 5]] {
        assert_eq!(reconstruct(&sharing, &indices), Scalar::from_u64(42));
    }
}

#[test]
fn shares_follow_the_given_polynomial() {
    // P(x) = 5 + 2x + 3x^2
    let coefficients = vec![Scalar::from_u64(5), Scalar::from_u64(2), Scalar::from_u64(3)];
    let sharing = SecretSharing::from_polynomial(&coefficients, 4);
    let expected = [10u64, 21, 38, 61];
    assert_eq!(sharing.get_shares().len(), 4);
    for (k, e) in expected.iter().enumerate() {
        assert_eq!(sharing.get_share(k + 1).unwrap(), Scalar::from_u64(*e));
    }
    assert!(sharing.get_share(0).is_none());
    assert!(sharing.get_share(5).is_none());
    assert_eq!(sharing.threshold, 3);
}

#[test]
fn lagrange_coefficient_skips_its_own_index_only() {
    // For {2, 5}: lambda_2 = -5 / (2 - 5) = 5/3, lambda_5 = -2 / (5 - 2) = -2/3.
    let l2 = SecretSharing::lagrange_coefficient(2, &[2, 5]);
    let l5 = SecretSharing::lagrange_coefficient(5, &[2, 5]);
    assert_eq!(l2.mul(&Scalar::from_u64(3)), Scalar::from_u64(5));
    assert_eq!(l5.mul(&Scalar::from_u64(3)), Scalar::from_u64(2).neg());
    assert_eq!(SecretSharing::lagrange_coefficient(4, &[]), Scalar::from_u64(1));
}
