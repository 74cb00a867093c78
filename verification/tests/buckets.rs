use rate_limiters::buckets::leaky::LeakyBucket;
use rate_limiters::buckets::token::TokenBucket;
use rate_limiters::limiter::{RateLimiter, Step};

#[test]
fn token_bucket_starts_with_nothing_available() {
    let mut bucket = TokenBucket::new(10, 5);
    assert_eq!(bucket.capacity(), 10);
    assert_eq!(bucket.refill_rate(), 5);
    assert_eq!(bucket.used(), 10);
    assert!(!bucket.is_stopped());
    assert!(!bucket.is_rate_limited(1));
    assert!(bucket.is_rate_limited(0));
    assert_eq!(bucket.used(), 10);
}

#[test]
fn token_bucket_burst_of_thirteen_admits_five() {
    let mut bucket = TokenBucket::new(10, 5);
    assert_eq!(bucket.maintain(), Step::Sleep(1));
    assert_eq!(bucket.maintain(), Step::Sleep(1));
    assert_eq!(bucket.used(), 0);
    let mut outcomes = Vec::new();
    for _ in 0..13 {
        outcomes.push(bucket.is_rate_limited(2));
    }
    let mut expected = vec![true; 5];
    expected.extend(vec![false; 8]);
    assert_eq!(outcomes, expected);
    assert_eq!(bucket.used(), 10);
}

#[test]
fn token_bucket_tick_gives_back_the_rate() {
    let mut bucket = TokenBucket::new(10, 3);
    bucket.maintain();
    assert_eq!(bucket.used(), 7);
    assert!(bucket.is_rate_limited(3));
    assert!(!bucket.is_rate_limited(1));
    bucket.maintain();
    bucket.maintain();
    bucket.maintain();
    assert_eq!(bucket.used(), 1);
    bucket.maintain();
    assert_eq!(bucket.used(), 0);
    bucket.maintain();
    assert_eq!(bucket.used(), 0);
}

#[test]
fn token_bucket_rejects_weight_above_capacity() {
    let mut bucket = TokenBucket::new(4, 4);
    bucket.maintain();
    assert_eq!(bucket.used(), 0);
    assert!(!bucket.is_rate_limited(5));
    assert!(!bucket.is_rate_limited(u64::MAX));
    assert_eq!(bucket.used(), 0);
    assert!(bucket.is_rate_limited(4));
    assert_eq!(bucket.used(), 4);
}

#[test]
fn token_bucket_cleanup_stops_maintenance_only() {
    let mut bucket = TokenBucket::new(6, 2);
    bucket.maintain();
    assert!(bucket.is_rate_limited(1));
    assert_eq!(bucket.used(), 5);
    bucket.cleanup();
    assert!(bucket.is_stopped());
    assert_eq!(bucket.used(), 5);
    assert_eq!(bucket.maintain(), Step::Exit);
    assert_eq!(bucket.used(), 5);
    assert!(bucket.is_rate_limited(1));
    assert!(!bucket.is_rate_limited(1));
    assert_eq!(bucket.used(), 6);
    bucket.cleanup();
    assert!(bucket.is_stopped());
}

#[test]
fn leaky_bucket_starts_full() {
    let mut bucket = LeakyBucket::new(20, 2);
    assert_eq!(bucket.capacity(), 20);
    assert_eq!(bucket.leak_rate(), 2);
    assert_eq!(bucket.used(), 20);
    assert!(!bucket.is_stopped());
    for _ in 0..10 {
        assert!(!bucket.is_rate_limited(5));
    }
    assert_eq!(bucket.used(), 20);
}

#[test]
fn leaky_bucket_ten_calls_of_weight_five() {
    let mut bucket = LeakyBucket::new(20, 2);
    for _ in 0..10 {
        assert_eq!(bucket.maintain(), Step::Sleep(1));
    }
    assert_eq!(bucket.used(), 0);
    let mut outcomes = Vec::new();
    for _ in 0..10 {
        outcomes.push(bucket.is_rate_limited(5));
    }
    let mut expected = vec![true; 4];
    expected.extend(vec![false; 6]);
    assert_eq!(outcomes, expected);
    assert_eq!(bucket.used(), 20);
    bucket.maintain();
    bucket.maintain();
    assert_eq!(bucket.used(), 16);
    assert!(!bucket.is_rate_limited(5));
    bucket.maintain();
    assert_eq!(bucket.used(), 14);
    assert!(bucket.is_rate_limited(5));
    assert_eq!(bucket.used(), 19);
    assert!(!bucket.is_rate_limited(5));
}

#[test]
fn leaky_bucket_ticks_drain_to_zero_and_stay() {
    let mut bucket = LeakyBucket::new(10, 4);
    bucket.maintain();
    assert_eq!(bucket.used(), 6);
    bucket.maintain();
    assert_eq!(bucket.used(), 2);
    bucket.maintain();
    assert_eq!(bucket.used(), 0);
    bucket.maintain();
    assert_eq!(bucket.used(), 0);
}

#[test]
fn leaky_bucket_counter_stays_within_capacity() {
    let mut bucket = LeakyBucket::new(7, 3);
    let weights = [0u64, 1, 2, 7, 8, 3, u64::MAX, 5, 1, 1, 4, 6];
    for (turn, weight) in weights.iter().enumerate() {
        let before = bucket.used();
        let admitted = bucket.is_rate_limited(*weight);
        if admitted {
            assert_eq!(bucket.used(), before + *weight);
        } else {
            assert_eq!(bucket.used(), before);
        }
        assert!(bucket.used() <= bucket.capacity());
        if turn % 3 == 0 {
            bucket.maintain();
            assert!(bucket.used() <= bucket.capacity());
        }
    }
}

#[test]
fn leaky_bucket_without_leak_never_recovers() {
    let mut bucket = LeakyBucket::new(3, 0);
    assert_eq!(bucket.maintain(), Step::Sleep(1));
    assert_eq!(bucket.used(), 3);
    assert!(!bucket.is_rate_limited(1));
}

#[test]
fn leaky_bucket_of_no_capacity_admits_only_nothing() {
    let mut bucket = LeakyBucket::new(0, 9);
    bucket.maintain();
    assert_eq!(bucket.used(), 0);
    assert!(!bucket.is_rate_limited(1));
    assert!(bucket.is_rate_limited(0));
}

#[test]
fn leaky_bucket_huge_rate_and_weight_do_not_overflow() {
    let mut bucket = LeakyBucket::new(u64::MAX, u64::MAX);
    bucket.maintain();
    assert_eq!(bucket.used(), 0);
    assert!(bucket.is_rate_limited(u64::MAX));
    assert_eq!(bucket.used(), u64::MAX);
    assert!(!bucket.is_rate_limited(1));
    assert!(!bucket.is_rate_limited(u64::MAX));
}

#[test]
fn leaky_bucket_cleanup_stops_maintenance_only() {
    let mut bucket = LeakyBucket::new(5, 5);
    bucket.maintain();
    assert!(bucket.is_rate_limited(2));
    bucket.cleanup();
    assert!(bucket.is_stopped());
    assert_eq!(bucket.used(), 2);
    assert_eq!(bucket.maintain(), Step::Exit);
    assert_eq!(bucket.used(), 2);
    assert!(bucket.is_rate_limited(3));
    assert!(!bucket.is_rate_limited(1));
}

#[test]
fn both_buckets_behave_alike() {
    let mut leaky = LeakyBucket::new(9, 4);
    let mut token = TokenBucket::new(9, 4);
    let weights = [1u64, 3, 9, 2, 2, 5, 0, 4];
    for weight in weights {
        assert_eq!(leaky.maintain(), token.maintain());
        assert_eq!(leaky.is_rate_limited(weight), token.is_rate_limited(weight));
        assert_eq!(leaky.used(), token.used());
    }
}
