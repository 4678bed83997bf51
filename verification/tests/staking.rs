use nosana_core::common::Pubkey;
use nosana_core::common::NosanaError;
use nosana_core::instructions;
use nosana_core::staking::{
    DURATION_MAX, DURATION_MIN, SECONDS_PER_DAY, SettingsAccount, StakeAccount, STAKE_MINIMUM,
    XNOS_DIV,
};

fn key(tag: u64) -> Pubkey {
    Pubkey::new(tag, 0, 0, 0)
}

fn zeroed_stake() -> StakeAccount {
    StakeAccount {
        amount: 0,
        authority: key(0),
        duration: 0,
        time_unstake: 0,
        vault: key(0),
        vault_bump: 0,
        xnos: 0,
    }
}

fn open_stake(amount: u64, duration: u128) -> StakeAccount {
    let mut stake = zeroed_stake();
    let result = instructions::stake::handler(&mut stake, amount, duration, key(1), key(2), 255);
    assert!(result.is_ok());
    stake
}

#[test]
fn xnos_at_minimum_duration_matches_hand_computed_value() {
    // multiplier = 1_209_600 * 1e15 / 10_512_000 + 1e15 = 1_115_068_493_150_684
    // xnos = multiplier * 10_000_000 / 1e15 = 11_150_684
    let stake = open_stake(10_000_000, 14 * SECONDS_PER_DAY);
    assert_eq!(stake.xnos, 11_150_684);
}

#[test]
fn xnos_at_maximum_duration_is_four_times_the_amount() {
    let stake = open_stake(10_000_000, 365 * SECONDS_PER_DAY);
    assert_eq!(stake.xnos, 40_000_000);
    assert_eq!(stake.xnos, 4 * 10_000_000);
}

#[test]
fn xnos_grows_strictly_with_amount() {
    let smaller = open_stake(10_000_000, DURATION_MIN);
    let larger = open_stake(10_000_001, DURATION_MIN);
    assert!(smaller.xnos < larger.xnos);
}

#[test]
fn xnos_grows_strictly_with_duration_for_large_amounts() {
    let amount: u64 = 20_000_000;
    assert!((amount as u128) > XNOS_DIV);
    let shorter = open_stake(amount, DURATION_MIN);
    let longer = open_stake(amount, DURATION_MIN + 1);
    assert!(shorter.xnos < longer.xnos);
}

#[test]
fn one_second_of_duration_can_round_away_for_small_amounts() {
    // For amounts at the normalizer or under, a single extra second's
    // fixed-point bonus is lost to the final rounding.
    let amount: u64 = 1_000_001;
    let shorter = open_stake(amount, DURATION_MIN);
    let longer = open_stake(amount, DURATION_MIN + 1);
    assert_eq!(shorter.xnos, longer.xnos);
}

#[test]
fn unstake_zeroes_the_weight() {
    let mut stake = open_stake(10_000_000, DURATION_MIN);
    assert!(stake.xnos > 0);
    stake.unstake(1_700_000_000);
    assert_eq!(stake.time_unstake, 1_700_000_000);
    assert_eq!(stake.xnos, 0);
}

#[test]
fn topup_recomputes_the_weight() {
    let mut stake = open_stake(10_000_000, DURATION_MIN);
    stake.topup(10_000_000);
    assert_eq!(stake.amount, 20_000_000);
    assert_eq!(stake.xnos, open_stake(20_000_000, DURATION_MIN).xnos);
}

#[test]
fn slash_recomputes_the_weight() {
    let mut stake = open_stake(20_000_000, DURATION_MIN);
    stake.slash(5_000_000);
    assert_eq!(stake.amount, 15_000_000);
    assert_eq!(stake.xnos, open_stake(15_000_000, DURATION_MIN).xnos);
}

#[test]
fn stake_below_minimum_duration_is_rejected_without_state_change() {
    let mut stake = zeroed_stake();
    let result =
        instructions::stake::handler(&mut stake, 10_000_000, DURATION_MIN - 1, key(1), key(2), 0);
    assert_eq!(result, Err(NosanaError::StakeDurationTooShort));
    assert_eq!(stake.amount, 0);
    assert_eq!(stake.xnos, 0);
}

#[test]
fn stake_above_maximum_duration_is_rejected_without_state_change() {
    let mut stake = zeroed_stake();
    let result =
        instructions::stake::handler(&mut stake, 10_000_000, DURATION_MAX + 1, key(1), key(2), 0);
    assert_eq!(result, Err(NosanaError::StakeDurationTooLong));
    assert_eq!(stake.amount, 0);
}

#[test]
fn stake_at_or_below_minimum_amount_is_rejected() {
    let mut stake = zeroed_stake();
    let result =
        instructions::stake::handler(&mut stake, STAKE_MINIMUM, DURATION_MIN, key(1), key(2), 0);
    assert_eq!(result, Err(NosanaError::StakeAmountNotEnough));
}

#[test]
fn stake_at_both_duration_bounds_succeeds() {
    assert!(open_stake(10_000_000, DURATION_MIN).xnos > 0);
    assert!(open_stake(10_000_000, DURATION_MAX).xnos > 0);
}

#[test]
fn extend_to_exactly_the_maximum_succeeds() {
    let mut stake = open_stake(10_000_000, DURATION_MIN);
    let extra = (DURATION_MAX - DURATION_MIN) as u64;
    let result = instructions::extend::handler(&mut stake, extra);
    assert!(result.is_ok());
    assert_eq!(stake.duration as u128, DURATION_MAX);
    assert_eq!(stake.xnos, 40_000_000);
}

#[test]
fn extend_past_the_maximum_is_rejected_without_state_change() {
    let mut stake = open_stake(10_000_000, DURATION_MIN);
    let before_duration = stake.duration;
    let before_xnos = stake.xnos;
    let extra = (DURATION_MAX - DURATION_MIN) as u64 + 1;
    let result = instructions::extend::handler(&mut stake, extra);
    assert_eq!(result, Err(NosanaError::StakeDurationTooLong));
    assert_eq!(stake.duration, before_duration);
    assert_eq!(stake.xnos, before_xnos);
}

#[test]
fn extend_by_zero_is_rejected() {
    let mut stake = open_stake(10_000_000, DURATION_MIN);
    let result = instructions::extend::handler(&mut stake, 0);
    assert_eq!(result, Err(NosanaError::StakeDurationTooShort));
}

#[test]
fn extend_of_an_unstaking_record_is_rejected() {
    let mut stake = open_stake(10_000_000, DURATION_MIN);
    stake.unstake(1_700_000_000);
    let result = instructions::extend::handler(&mut stake, 1);
    assert_eq!(result, Err(NosanaError::StakeAlreadyUnstaked));
    assert_eq!(stake.xnos, 0);
}

#[test]
fn settings_are_replaced_wholesale() {
    let mut settings = SettingsAccount { authority: key(1), token_account: key(2) };
    settings.set(key(3), key(4));
    assert_eq!(settings.authority, key(3));
    assert_eq!(settings.token_account, key(4));
}
