use cloudreve::progress::{
    DownloadProgressTracker, DownloadProgressUpdate, Fraction, InMemoryDownloadProgressReporter,
    SpeedBasis, TaskProgress,
};
use dashmap::DashMap;

const SECOND: u128 = 1_000_000_000;

fn rate(bytes: u64, nanos: u128) -> u64 {
    (bytes as f64 / (nanos as f64 / 1e9)) as u64
}

fn idle() -> TaskProgress {
    TaskProgress {
        progress: Fraction { numerator: 0, denominator: 1 },
        processed_bytes: None,
        total_bytes: None,
        speed_bytes_per_sec: 0,
        eta_seconds: None,
    }
}

#[test]
fn bytes_add_up() {
    let mut tracker = DownloadProgressTracker::new(100);
    assert_eq!(tracker.downloaded(), 0);
    for size in [10, 0, 25] {
        tracker.add_bytes(size);
    }
    assert_eq!(tracker.downloaded(), 35);
}

#[test]
fn the_byte_count_wraps_around() {
    let mut tracker = DownloadProgressTracker::new(1);
    tracker.add_bytes(u64::MAX);
    tracker.add_bytes(3);
    assert_eq!(tracker.downloaded(), 2);
}

#[test]
fn a_first_sample_has_no_speed() {
    let mut tracker = DownloadProgressTracker::new(100);
    tracker.add_bytes(40);
    let update = tracker.create_update_at(5 * SECOND, rate);
    assert_eq!(
        update,
        DownloadProgressUpdate {
            total_size: 100,
            downloaded: 40,
            progress: Fraction { numerator: 40, denominator: 100 },
            speed_bytes_per_sec: 0,
            eta_seconds: None,
        }
    );
}

#[test]
fn speed_and_rest_are_computed_from_the_oldest_sample() {
    let mut tracker = DownloadProgressTracker::new(1000);
    tracker.create_update_at(0, rate);
    tracker.add_bytes(100);
    tracker.create_update_at(SECOND, rate);
    tracker.add_bytes(200);
    let update = tracker.create_update_at(4 * SECOND, rate);
    assert_eq!(update.speed_bytes_per_sec, 75);
    assert_eq!(update.eta_seconds, Some(9));
    assert_eq!(update.downloaded, 300);
}

#[test]
fn old_samples_leave_the_window() {
    let mut tracker = DownloadProgressTracker::new(10_000);
    tracker.take_sample(0);
    tracker.add_bytes(1000);
    tracker.take_sample(SECOND);
    tracker.add_bytes(1000);
    // The first sample is just not older than ten seconds.
    assert_eq!(
        tracker.take_sample(10 * SECOND),
        Some(SpeedBasis { bytes: 2000, nanos: 10 * SECOND })
    );
    assert_eq!(
        tracker.take_sample(10 * SECOND + 1),
        Some(SpeedBasis { bytes: 1000, nanos: 9 * SECOND + 1 })
    );
    assert_eq!(tracker.take_sample(60 * SECOND), None);
}

#[test]
fn no_speed_is_computed_over_less_than_a_millisecond() {
    let mut tracker = DownloadProgressTracker::new(10);
    assert_eq!(tracker.take_sample(0), None);
    assert_eq!(tracker.take_sample(999_999), None);
    assert_eq!(
        tracker.take_sample(1_000_000),
        Some(SpeedBasis { bytes: 0, nanos: 1_000_000 })
    );
}

#[test]
fn a_count_that_wrapped_moves_nothing() {
    let mut tracker = DownloadProgressTracker::new(10);
    tracker.add_bytes(u64::MAX);
    tracker.take_sample(0);
    tracker.add_bytes(5);
    assert_eq!(tracker.take_sample(SECOND), Some(SpeedBasis { bytes: 0, nanos: SECOND }));
}

#[test]
fn the_share_is_at_most_the_whole() {
    let share = |downloaded: u64, total: u64| {
        let mut tracker = DownloadProgressTracker::new(total);
        tracker.add_bytes(downloaded);
        tracker.update_for(0).progress
    };
    assert_eq!(share(0, 8), Fraction { numerator: 0, denominator: 8 });
    assert_eq!(share(8, 8), Fraction { numerator: 8, denominator: 8 });
    assert_eq!(share(9, 8), Fraction { numerator: 8, denominator: 8 });
    assert_eq!(share(0, 0), Fraction { numerator: 1, denominator: 1 });
    assert_eq!(share(5, 0), Fraction { numerator: 1, denominator: 1 });
}

#[test]
fn the_estimate_is_in_whole_seconds() {
    let eta = |downloaded: u64, total: u64, speed: u64| {
        let mut tracker = DownloadProgressTracker::new(total);
        tracker.add_bytes(downloaded);
        tracker.update_for(speed).eta_seconds
    };
    assert_eq!(eta(0, 100, 30), Some(3));
    assert_eq!(eta(0, 90, 30), Some(3));
    assert_eq!(eta(99, 100, 30), Some(0));
    assert_eq!(eta(100, 100, 30), None);
    assert_eq!(eta(101, 100, 30), None);
    assert_eq!(eta(0, 100, 0), None);
}

#[test]
fn the_clock_is_read_for_an_update() {
    let mut tracker = DownloadProgressTracker::new(4);
    tracker.add_bytes(1);
    assert_eq!(tracker.create_update(rate).speed_bytes_per_sec, 0);
    tracker.add_bytes(3);
    let start = std::time::Instant::now();
    while start.elapsed().as_millis() < 3 {}
    let update = tracker.create_update(|bytes, nanos| {
        assert_eq!(bytes, 3);
        assert!(nanos >= 3_000_000);
        77
    });
    assert_eq!(update.speed_bytes_per_sec, 77);
    assert_eq!(update.downloaded, 4);
    assert_eq!(update.eta_seconds, None);
}

#[test]
fn a_report_reaches_its_own_entry_alone() {
    let mut map: DashMap<String, TaskProgress> = DashMap::new();
    map.insert("mine".to_string(), idle());
    map.insert("other".to_string(), idle());
    let reporter = InMemoryDownloadProgressReporter::new("mine".to_string());
    let mut tracker = DownloadProgressTracker::new(100);
    tracker.add_bytes(25);
    let update = tracker.update_for(5);
    reporter.on_progress(&mut map, &update);
    let expected = TaskProgress {
        progress: Fraction { numerator: 25, denominator: 100 },
        processed_bytes: Some(25),
        total_bytes: Some(100),
        speed_bytes_per_sec: 5,
        eta_seconds: Some(15),
    };
    assert_eq!(*map.get("mine").unwrap(), expected);
    assert_eq!(*map.get("other").unwrap(), idle());
    assert_eq!(map.len(), 2);
    reporter.on_progress(&mut map, &update);
    assert_eq!(*map.get("mine").unwrap(), expected);
}

#[test]
fn a_report_adds_no_entry() {
    let mut map: DashMap<String, TaskProgress> = DashMap::new();
    map.insert("other".to_string(), idle());
    let update = DownloadProgressTracker::new(1).update_for(0);
    InMemoryDownloadProgressReporter::new("mine".to_string()).on_progress(&mut map, &update);
    assert!(map.get("mine").is_none());
    assert_eq!(*map.get("other").unwrap(), idle());
}

#[test]
fn large_counts_are_shown_by_their_bits() {
    let mut tracker = DownloadProgressTracker::new(u64::MAX);
    tracker.add_bytes(1 << 63);
    let shown = idle().with_update(&tracker.update_for(0));
    assert_eq!(shown.total_bytes, Some(-1));
    assert_eq!(shown.processed_bytes, Some(i64::MIN));
}

#[test]
fn the_speed_is_the_mean_over_the_window() {
    let mut tracker = DownloadProgressTracker::new(1_000_000);
    // 1000 bytes in each of 15 seconds, then 5000 in each of 5.
    for second in 0..15u128 {
        tracker.create_update_at(second * SECOND, rate);
        tracker.add_bytes(1000);
    }
    for second in 15..20u128 {
        tracker.create_update_at(second * SECOND, rate);
        tracker.add_bytes(5000);
    }
    let update = tracker.create_update_at(20 * SECOND, rate);
    assert_eq!(update.downloaded, 40_000);
    // The oldest sample in the window was taken at 10 s, with 10000 bytes.
    assert_eq!(update.speed_bytes_per_sec, 3000);
    assert_eq!(update.eta_seconds, Some(320));
    assert_eq!(tracker.create_update_at(31 * SECOND, rate).speed_bytes_per_sec, 0);
}
