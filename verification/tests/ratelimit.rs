use beatdrop::ratelimit::{Backoff, Ratelimit};

#[test]
fn backoff_doubles_up_to_the_cap() {
    let mut backoff = Backoff::new(1_000, 300_000, 2);
    let mut delays = Vec::new();
    for _ in 0..11 {
        delays.push(backoff.next().unwrap());
    }
    assert_eq!(
        delays,
        vec![1_000, 2_000, 4_000, 8_000, 16_000, 32_000, 64_000, 128_000, 256_000, 300_000, 300_000]
    );
}

#[test]
fn backoff_never_ends() {
    let mut backoff = Backoff::new(1, 10, 3);
    for _ in 0..1_000 {
        assert!(backoff.next().is_some());
    }
    assert_eq!(backoff.next(), Some(10));
}

#[test]
fn backoff_caps_the_first_delay_too() {
    let mut backoff = Backoff::new(500, 100, 2);
    assert_eq!(backoff.next(), Some(100));
    assert_eq!(backoff.next(), Some(100));
    let mut by_hand = Backoff { delay: 500, max_delay: 100, factor: 2 };
    assert_eq!(by_hand.next(), Some(100));
    assert_eq!(by_hand.next(), Some(100));
    let mut fading = Backoff { delay: 500, max_delay: 100, factor: 0 };
    assert_eq!(fading.next(), Some(100));
    assert_eq!(fading.next(), Some(0));
}

#[test]
fn backoff_does_not_overflow() {
    let mut backoff = Backoff::new(u64::MAX, u64::MAX, u32::MAX);
    assert_eq!(backoff.next(), Some(u64::MAX));
    assert_eq!(backoff.next(), Some(u64::MAX));
}

#[test]
fn backoff_with_factor_zero_drops_to_zero() {
    let mut backoff = Backoff::new(7, 100, 0);
    assert_eq!(backoff.next(), Some(7));
    assert_eq!(backoff.next(), Some(0));
}

#[test]
fn limiter_grants_no_more_than_its_capacity_within_an_interval() {
    let mut limit = Ratelimit::new(3);
    let mut granted = 0;
    for _ in 0..10 {
        if limit.try_acquire() {
            granted += 1;
        }
    }
    assert_eq!(granted, 3);
    assert_eq!(limit.available_permits(), 0);
}

#[test]
fn limiter_blocks_until_replenished() {
    let mut limit = Ratelimit::new(1);
    assert!(limit.try_acquire());
    assert!(!limit.try_acquire());
    limit.replenish();
    assert!(limit.try_acquire());
    assert!(!limit.try_acquire());
}

#[test]
fn limiter_does_not_fill_beyond_its_capacity() {
    let mut limit = Ratelimit::new(2);
    limit.replenish();
    limit.replenish();
    assert_eq!(limit.available_permits(), 2);
    assert!(limit.try_acquire());
    limit.replenish();
    limit.replenish();
    assert_eq!(limit.available_permits(), 2);
}

#[test]
fn limiter_of_no_capacity_grants_nothing() {
    let mut limit = Ratelimit::new(0);
    assert!(!limit.try_acquire());
    limit.replenish();
    assert!(!limit.try_acquire());
}
