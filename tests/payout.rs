use dice_game::{
    calculate_payout, outcome_from_hash, roll_from_hash, Bet, DiceError, HOUSE_EDGE, MAX_ROLL,
    MIN_BET_LAMPORTS, MIN_ROLL,
};

#[test]
fn constants_have_their_documented_values() {
    assert_eq!(HOUSE_EDGE, 150);
    assert_eq!(MIN_BET_LAMPORTS, 10_000_000);
    assert_eq!(MIN_ROLL, 2);
    assert_eq!(MAX_ROLL, 96);
}

#[test]
fn payout_at_roll_fifty() {
    assert_eq!(calculate_payout(10_000_000, 50), Ok(19_700_000));
}

#[test]
fn payout_at_roll_two() {
    assert_eq!(calculate_payout(10_000_000, 2), Ok(492_500_000));
}

#[test]
fn payout_truncates_toward_zero() {
    // 10_000_001 * 9850 / 300 = 328_333_366.17
    assert_eq!(calculate_payout(10_000_001, 3), Ok(328_333_366));
}

#[test]
fn payout_strictly_decreases_with_roll() {
    for amount in [MIN_BET_LAMPORTS, 12_345_678_901, 1_000_000_000_000] {
        let mut previous = calculate_payout(amount, MIN_ROLL).unwrap();
        for roll in (MIN_ROLL + 1)..=MAX_ROLL {
            let next = calculate_payout(amount, roll).unwrap();
            assert!(next < previous, "amount {} roll {}", amount, roll);
            previous = next;
        }
    }
}

#[test]
fn payout_that_does_not_fit_overflows() {
    assert_eq!(calculate_payout(u64::MAX, 2), Err(DiceError::ArithmeticOverflow));
}

#[test]
fn payout_at_roll_zero_overflows() {
    assert_eq!(calculate_payout(10_000_000, 0), Err(DiceError::ArithmeticOverflow));
}

#[test]
fn payout_of_largest_stake_at_highest_roll_fits() {
    // u64::MAX * 9850 / 9600 exceeds u64::MAX; u64::MAX * 9850 / 9600 / 2 does not.
    assert_eq!(calculate_payout(u64::MAX, 96), Err(DiceError::ArithmeticOverflow));
    let half = u64::MAX / 2;
    let expected = ((half as u128) * 9850 / 9600) as u64;
    assert_eq!(calculate_payout(half, 96), Ok(expected));
}

#[test]
fn roll_from_little_endian_one() {
    let mut hash = [0u8; 32];
    hash[0] = 0x01;
    assert_eq!(roll_from_hash(&hash), 2);
}

#[test]
fn roll_reads_second_byte_as_high() {
    let mut hash = [0u8; 32];
    hash[0] = 0x2c;
    hash[1] = 0x01; // 300
    assert_eq!(roll_from_hash(&hash), 1);
    hash[0] = 0xff;
    hash[1] = 0xff; // 65535
    assert_eq!(roll_from_hash(&hash), 36);
    hash[0] = 0x63;
    hash[1] = 0x00; // 99
    assert_eq!(roll_from_hash(&hash), 100);
}

#[test]
fn outcome_wins_when_roll_does_not_exceed_threshold() {
    let mut hash = [0u8; 32];
    hash[0] = 49; // roll 50
    let won = outcome_from_hash(50, 19_700_000, &hash);
    assert_eq!(won.roll_result, 50);
    assert!(won.won);
    assert_eq!(won.payout, 19_700_000);
    let lost = outcome_from_hash(49, 20_102_040, &hash);
    assert_eq!(lost.roll_result, 50);
    assert!(!lost.won);
    assert_eq!(lost.payout, 0);
}

#[test]
fn bet_serializes_player_seed_amount_roll_bump() {
    let bet = Bet { player: [7u8; 32], seed: 0x0102030405060708, amount: 10_000_000, roll: 50, bump: 254 };
    let bytes = bet.to_slice();
    assert_eq!(bytes.len(), 50);
    assert_eq!(&bytes[..32], &[7u8; 32]);
    assert_eq!(&bytes[32..40], &0x0102030405060708u64.to_le_bytes());
    assert_eq!(&bytes[40..48], &10_000_000u64.to_le_bytes());
    assert_eq!(bytes[48], 50);
    assert_eq!(bytes[49], 254);
}
