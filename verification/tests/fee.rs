use gridpool_ckpool_adapter::fee::{
    fee_bucket, fee_message, fee_selected, signed_be_bytes, FeeError, FEE_BUCKET_SECONDS,
};

#[test]
fn fee_schedule_tracks_basis_points() {
    let secret = [7u8; 32];
    let selected = (0..200_000)
        .filter(|bucket| {
            fee_bucket(
                &secret,
                "mainnet",
                &"01".repeat(32),
                "0014abcd",
                bucket * FEE_BUCKET_SECONDS,
                150,
            )
            .unwrap()
            .1
        })
        .count();
    let ratio = selected as f64 / 200_000f64;
    assert!((ratio - 0.015).abs() < 0.001, "ratio={ratio}");
}

#[test]
fn fee_schedule_is_stable_for_identity_and_bucket() {
    let first = fee_bucket(
        &[3u8; 32],
        "mainnet",
        &"02".repeat(32),
        "0014cafe",
        123_456,
        150,
    )
    .unwrap();
    let second = fee_bucket(
        &[3u8; 32],
        "mainnet",
        &"02".repeat(32),
        "0014cafe",
        123_459,
        150,
    )
    .unwrap();
    assert_eq!(first, second);
}

#[test]
fn the_drawn_number_decides() {
    // The digest of this identity and bucket draws 9026 out of ten thousand.
    let decide = |points: u16| {
        fee_bucket(&[3u8; 32], "mainnet", &"02".repeat(32), "0014cafe", 123_456, points)
    };
    assert_eq!(decide(9_026), Ok((12_345, false)));
    assert_eq!(decide(9_027), Ok((12_345, true)));
    assert_eq!(decide(10_000), Ok((12_345, true)));
    assert_eq!(decide(0), Ok((12_345, false)));
    // A key of three bytes is as good as any: it draws 6854.
    assert_eq!(fee_bucket(b"key", "testnet", "aa", "51", 1_700_000_000, 6_854), Ok((170_000_000, false)));
    assert_eq!(fee_bucket(b"key", "testnet", "aa", "51", 1_700_000_000, 6_855), Ok((170_000_000, true)));
}

#[test]
fn buckets_before_the_epoch_round_down() {
    let at = |seconds: i64, points: u16| {
        fee_bucket(&[3u8; 32], "mainnet", &"02".repeat(32), "0014cafe", seconds, points)
    };
    assert_eq!(at(-1, 6_004), Ok((-1, false)));
    assert_eq!(at(-1, 6_005), Ok((-1, true)));
    assert_eq!(at(-10, 6_005), Ok((-1, true)));
    assert_eq!(at(-11, 0).unwrap().0, -2);
    assert_eq!(at(i64::MIN, 0).unwrap().0, -922_337_203_685_477_581);
}

#[test]
fn fees_beyond_the_whole_are_refused() {
    assert_eq!(
        fee_bucket(&[3u8; 32], "mainnet", "", "", 0, 10_001),
        Err(FeeError::BasisPointsTooLarge)
    );
    assert_eq!(FeeError::BasisPointsTooLarge.message(), "fee basis points exceed 10000");
    assert_eq!(FeeError::InvalidSecret.message(), "invalid fee secret");
}

#[test]
fn digested_names_are_closed_by_zero_bytes() {
    assert_eq!(
        fee_message("ab", "c", "", 258),
        vec![b'a', b'b', 0, b'c', 0, 0, 0, 0, 0, 0, 0, 0, 1, 2]
    );
    assert_eq!(signed_be_bytes(-2), (-2i64).to_be_bytes().to_vec());
    assert_eq!(signed_be_bytes(i64::MIN), i64::MIN.to_be_bytes().to_vec());
    assert_eq!(signed_be_bytes(0x0102_0304_0506_0708), vec![1, 2, 3, 4, 5, 6, 7, 8]);
}

#[test]
fn identities_and_buckets_are_digested_apart() {
    let first = fee_message("ab", "c", "d", 1);
    assert_ne!(first, fee_message("a", "bc", "d", 1));
    assert_ne!(first, fee_message("ab", "", "cd", 1));
    assert_ne!(first, fee_message("ab", "c", "d", 2));
    assert_eq!(fee_message("a\0b", "c", "d", 1), fee_message("a", "b\0c", "d", 1));
}

#[test]
fn the_first_eight_bytes_are_drawn_from() {
    let tag = [0, 0, 0, 0, 0, 0, 0x27, 0x10 + 5, 0xff, 0xff];
    // 10005 out of ten thousand leaves 5.
    assert!(!fee_selected(&tag, 5));
    assert!(fee_selected(&tag, 6));
    assert_eq!(fee_selected(&[0xff; 8], 1_616), u64::MAX % 10_000 < 1_616);
    assert_eq!(fee_selected(&[0xff; 8], 1_615), u64::MAX % 10_000 < 1_615);
}

#[test]
fn a_higher_fee_keeps_the_windows_of_a_lower_one() {
    for seconds in (0..5_000).step_by(10) {
        let low = fee_bucket(&[9; 32], "n", "p", "s", seconds, 2_000).unwrap().1;
        let high = fee_bucket(&[9; 32], "n", "p", "s", seconds, 4_000).unwrap().1;
        assert!(!low || high);
    }
}

#[test]
fn the_configured_fraction_of_numbers_is_selected() {
    let selected = (777u64..10_777)
        .filter(|n| fee_selected(&n.to_be_bytes(), 150))
        .count();
    assert_eq!(selected, 150);
}
