use rate_limiters::limiter::{RateLimiter, Step};
use rate_limiters::windows::fixed::FixedWindow;
use rate_limiters::windows::sliding::SlidingWindow;

#[test]
fn fixed_window_starts_empty() {
    let window = FixedWindow::new(5, 1);
    assert_eq!(window.capacity(), 5);
    assert_eq!(window.window_size(), 1);
    assert_eq!(window.count(), 0);
    assert!(!window.is_stopped());
}

#[test]
fn fixed_window_seven_calls_admit_five() {
    let mut window = FixedWindow::new(5, 1);
    let mut admitted = 0;
    let mut rejected = 0;
    for _ in 0..7 {
        if window.is_rate_limited(1) {
            admitted += 1;
        } else {
            rejected += 1;
        }
    }
    assert_eq!(admitted, 5);
    assert_eq!(rejected, 2);
    assert_eq!(window.count(), 5);
}

#[test]
fn fixed_window_count_grows_until_reset() {
    let mut window = FixedWindow::new(10, 3);
    let mut last = window.count();
    for weight in [2u64, 0, 9, 3, 11, 5, 1] {
        window.is_rate_limited(weight);
        assert!(window.count() >= last);
        assert!(window.count() <= window.capacity());
        last = window.count();
    }
    assert_eq!(last, 10);
    window.reset();
    assert_eq!(window.count(), 0);
    assert!(window.is_rate_limited(10));
    assert_eq!(window.count(), 10);
}

#[test]
fn fixed_window_bursts_across_a_boundary() {
    let mut window = FixedWindow::new(3, 60);
    assert!(window.is_rate_limited(3));
    assert!(!window.is_rate_limited(1));
    window.reset();
    assert!(window.is_rate_limited(3));
    assert!(!window.is_rate_limited(1));
}

#[test]
fn fixed_window_rejects_weight_above_capacity() {
    let mut window = FixedWindow::new(4, 1);
    assert!(!window.is_rate_limited(5));
    assert!(!window.is_rate_limited(u64::MAX));
    assert_eq!(window.count(), 0);
    assert!(window.is_rate_limited(1));
    assert!(!window.is_rate_limited(u64::MAX));
    assert_eq!(window.count(), 1);
}

#[test]
fn fixed_window_schedule_and_cleanup() {
    let mut window = FixedWindow::new(2, 5000);
    assert_eq!(window.schedule(), Step::Sleep(5000));
    assert!(window.is_rate_limited(1));
    window.cleanup();
    assert!(window.is_stopped());
    assert_eq!(window.schedule(), Step::Exit);
    assert_eq!(window.count(), 1);
    assert!(window.is_rate_limited(1));
    assert!(!window.is_rate_limited(1));
    window.reset();
    assert_eq!(window.count(), 0);
    assert!(window.is_stopped());
}

#[test]
fn sliding_window_starts_empty() {
    let window = SlidingWindow::new(3, 2);
    assert_eq!(window.capacity(), 3);
    assert_eq!(window.window_size(), 2);
    assert_eq!(window.now(), 0);
    assert_eq!(window.timestamps(), Vec::<u64>::new());
    assert!(!window.is_stopped());
}

#[test]
fn sliding_window_four_calls_admit_three_until_the_log_expires() {
    let mut window = SlidingWindow::new(3, 2);
    window.advance(10);
    let outcomes: Vec<bool> = (0..4).map(|_| window.is_rate_limited(1)).collect();
    assert_eq!(outcomes, vec![true, true, true, false]);
    assert_eq!(window.timestamps(), vec![10, 10, 10]);
    window.advance(12);
    assert!(!window.is_rate_limited(1));
    assert_eq!(window.timestamps(), vec![10, 10, 10]);
    window.advance(13);
    assert!(window.is_rate_limited(1));
    assert_eq!(window.timestamps(), vec![13]);
}

#[test]
fn sliding_window_takes_one_slot_whatever_the_weight() {
    let mut window = SlidingWindow::new(2, 10);
    assert!(window.is_rate_limited(100));
    assert_eq!(window.timestamps(), vec![0]);
    assert!(window.is_rate_limited(0));
    assert_eq!(window.timestamps(), vec![0, 0]);
    assert!(!window.is_rate_limited(0));
    assert!(!window.is_rate_limited(1));
    assert_eq!(window.timestamps(), vec![0, 0]);
}

#[test]
fn sliding_window_drops_only_what_left_the_window() {
    let mut window = SlidingWindow::new(4, 5);
    for now in [1u64, 3, 4, 8] {
        window.advance(now);
        assert!(window.is_rate_limited(1));
    }
    assert_eq!(window.timestamps(), vec![3, 4, 8]);
    assert!(window.is_rate_limited(1));
    assert_eq!(window.timestamps(), vec![3, 4, 8, 8]);
    assert!(!window.is_rate_limited(1));
    window.advance(9);
    assert!(window.is_rate_limited(7));
    assert_eq!(window.timestamps(), vec![4, 8, 8, 9]);
    assert!(!window.is_rate_limited(1));
    window.advance(13);
    assert!(window.is_rate_limited(1));
    assert_eq!(window.timestamps(), vec![8, 8, 9, 13]);
    window.advance(14);
    assert!(window.is_rate_limited(1));
    assert_eq!(window.timestamps(), vec![9, 13, 14]);
}

#[test]
fn sliding_window_expire_prunes_without_a_decision() {
    let mut window = SlidingWindow::new(2, 4);
    window.advance(1);
    assert!(window.is_rate_limited(1));
    window.advance(3);
    assert!(window.is_rate_limited(1));
    window.expire();
    assert_eq!(window.timestamps(), vec![1, 3]);
    window.advance(5);
    window.expire();
    assert_eq!(window.timestamps(), vec![1, 3]);
    window.advance(6);
    window.expire();
    assert_eq!(window.timestamps(), vec![3]);
    window.advance(100);
    window.expire();
    assert_eq!(window.timestamps(), Vec::<u64>::new());
}

#[test]
fn sliding_window_clock_never_runs_backwards() {
    let mut window = SlidingWindow::new(3, 2);
    window.advance(7);
    assert_eq!(window.now(), 7);
    window.advance(4);
    assert_eq!(window.now(), 7);
    assert!(window.is_rate_limited(1));
    assert_eq!(window.timestamps(), vec![7]);
    window.advance(7);
    assert_eq!(window.now(), 7);
    window.advance(u64::MAX);
    assert_eq!(window.now(), u64::MAX);
    assert!(window.is_rate_limited(1));
    assert_eq!(window.timestamps(), vec![u64::MAX]);
}

#[test]
fn sliding_window_log_stays_sorted_and_within_capacity() {
    let mut window = SlidingWindow::new(3, 3);
    let readings = [0u64, 0, 1, 1, 1, 2, 4, 4, 5, 9, 9, 9, 9, 13];
    for now in readings {
        window.advance(now);
        let before = window.timestamps();
        let admitted = window.is_rate_limited(now);
        let after = window.timestamps();
        assert!(after.len() as u64 <= window.capacity());
        assert!(after.windows(2).all(|pair| pair[0] <= pair[1]));
        assert!(after.iter().all(|t| *t + 3 >= now && *t <= now));
        let recent = before.iter().filter(|t| **t + 3 >= now).count();
        assert_eq!(admitted, recent < 3);
        assert_eq!(after.len(), recent + if admitted { 1 } else { 0 });
    }
}

#[test]
fn sliding_window_of_no_capacity_admits_nothing() {
    let mut window = SlidingWindow::new(0, 1);
    assert!(!window.is_rate_limited(1));
    assert!(!window.is_rate_limited(0));
    window.advance(50);
    assert!(!window.is_rate_limited(1));
    assert_eq!(window.timestamps(), Vec::<u64>::new());
}

#[test]
fn sliding_window_of_no_length_counts_the_present_moment() {
    let mut window = SlidingWindow::new(1, 0);
    window.advance(5);
    assert!(window.is_rate_limited(1));
    assert!(!window.is_rate_limited(1));
    window.advance(6);
    assert!(window.is_rate_limited(1));
    assert_eq!(window.timestamps(), vec![6]);
}

#[test]
fn sliding_window_schedule_and_cleanup() {
    let mut window = SlidingWindow::new(2, 5);
    assert_eq!(window.schedule(), Step::Sleep(2));
    assert!(window.is_rate_limited(1));
    window.cleanup();
    assert!(window.is_stopped());
    assert_eq!(window.schedule(), Step::Exit);
    assert_eq!(window.timestamps(), vec![0]);
    assert!(window.is_rate_limited(1));
    assert!(!window.is_rate_limited(1));
    window.advance(6);
    assert!(window.is_rate_limited(1));
    assert_eq!(SlidingWindow::new(1, 5_000_000_000).schedule(), Step::Sleep(2_500_000_000));
    assert_eq!(SlidingWindow::new(1, 1).schedule(), Step::Sleep(0));
}
