use balloon_hash::{BalloonHash, InvalidParameter};

fn differing_bits(a: &[u8], b: &[u8]) -> u32 {
    assert_eq!(a.len(), b.len());
    let mut n: u32 = 0;
    for i in 0..a.len() {
        n += (a[i] ^ b[i]).count_ones();
    }
    n
}

#[test]
fn test_basic_hash() {
    let balloon = BalloonHash::new(16, 20, 4).unwrap();
    let password = b"password123";
    let salt = b"salt123";

    let hash = balloon.hash(password, salt);
    assert_eq!(hash.len(), 32);
}

#[test]
fn test_parameter_validation() {
    assert!(BalloonHash::new(0, 20, 4).is_err());
    assert!(BalloonHash::new(16, 0, 4).is_err());
    assert!(BalloonHash::new(16, 20, 0).is_err());
}

#[test]
fn test_different_parameters() {
    let balloon1 = BalloonHash::new(16, 20, 4).unwrap();
    let balloon2 = BalloonHash::new(32, 20, 4).unwrap();

    let password = b"password123";
    let salt = b"salt123";

    let hash1 = balloon1.hash(password, salt);
    let hash2 = balloon2.hash(password, salt);

    assert_ne!(hash1, hash2);
}

#[test]
fn test_validation_reports_the_failing_parameter() {
    assert_eq!(
        BalloonHash::new(0, 20, 4).unwrap_err(),
        InvalidParameter::SpaceCost
    );
    assert_eq!(
        BalloonHash::new(16, 0, 4).unwrap_err(),
        InvalidParameter::TimeCost
    );
    assert_eq!(
        BalloonHash::new(16, 20, 0).unwrap_err(),
        InvalidParameter::ParallelCost
    );
    assert_eq!(
        BalloonHash::new(0, 0, 0).unwrap_err(),
        InvalidParameter::SpaceCost
    );
    assert!(BalloonHash::new(1, 1, 1).is_ok());
}

#[test]
fn test_constructed_configuration_keeps_the_parameters() {
    let balloon = BalloonHash::new(7, 9, 3).unwrap();
    assert_eq!(balloon.space_cost, 7);
    assert_eq!(balloon.time_cost, 9);
    assert_eq!(balloon.parallel_cost, 3);
}

#[test]
fn test_determinism() {
    let balloon = BalloonHash::new(16, 20, 4).unwrap();
    let first = balloon.hash(b"password123", b"salt123");
    let second = balloon.hash(b"password123", b"salt123");
    assert_eq!(first, second);
    assert_eq!(first.len(), 32);
}

#[test]
fn test_empty_password_and_salt() {
    let balloon = BalloonHash::new(4, 2, 2).unwrap();
    let hash = balloon.hash(b"", b"");
    assert_eq!(hash.len(), 32);
    assert_eq!(hash, balloon.hash(b"", b""));
}

#[test]
fn test_minimal_configuration_golden_value() {
    let balloon = BalloonHash::new(1, 1, 1).unwrap();
    let hash = balloon.hash(b"", b"");
    let expected: [u8; 32] = [
        76, 76, 60, 77, 216, 123, 245, 32, 155, 232, 36, 39, 158, 129, 100, 167, 94, 90, 77, 146,
        72, 232, 126, 92, 119, 151, 177, 143, 170, 170, 216, 48,
    ];
    assert_eq!(hash.as_slice(), expected.as_slice());
}

#[test]
fn test_golden_value() {
    let balloon = BalloonHash::new(16, 20, 4).unwrap();
    let hash = balloon.hash(b"password123", b"salt123");
    let expected: [u8; 32] = [
        248, 29, 20, 121, 21, 180, 241, 195, 80, 188, 187, 144, 138, 176, 245, 91, 53, 170, 210,
        176, 79, 31, 0, 36, 173, 232, 91, 14, 209, 119, 216, 60,
    ];
    assert_eq!(hash.as_slice(), expected.as_slice());
}

#[test]
fn test_time_cost_changes_the_output() {
    let balloon1 = BalloonHash::new(16, 20, 4).unwrap();
    let balloon2 = BalloonHash::new(16, 21, 4).unwrap();
    let hash1 = balloon1.hash(b"password123", b"salt123");
    let hash2 = balloon2.hash(b"password123", b"salt123");
    assert_ne!(hash1, hash2);
}

#[test]
fn test_parallel_cost_does_not_change_the_output() {
    let reference = BalloonHash::new(16, 20, 1)
        .unwrap()
        .hash(b"password123", b"salt123");
    for parallel_cost in [2, 3, 4, 16, 64] {
        let balloon = BalloonHash::new(16, 20, parallel_cost).unwrap();
        assert_eq!(balloon.hash(b"password123", b"salt123"), reference);
    }
}

#[test]
fn test_avalanche_on_password_bit_flip() {
    let balloon = BalloonHash::new(16, 20, 4).unwrap();
    // "qassword123" is "password123" with the lowest bit of the first byte flipped.
    let hash1 = balloon.hash(b"password123", b"salt123");
    let hash2 = balloon.hash(b"qassword123", b"salt123");
    assert_ne!(hash1, hash2);
    let flipped = differing_bits(&hash1, &hash2);
    assert!(flipped > 64, "only {flipped} of 256 output bits changed");
}

#[test]
fn test_avalanche_on_salt_bit_flip() {
    let balloon = BalloonHash::new(16, 20, 4).unwrap();
    // "ralt123" is "salt123" with the lowest bit of the first byte flipped.
    let hash1 = balloon.hash(b"password123", b"salt123");
    let hash2 = balloon.hash(b"password123", b"ralt123");
    assert_ne!(hash1, hash2);
    let flipped = differing_bits(&hash1, &hash2);
    assert!(flipped > 64, "only {flipped} of 256 output bits changed");
}
