use coarsetime::Duration;
use coarsetime::Instant;
use coarsetime::TimeSource;

fn busy_wait(d: std::time::Duration) {
    let start = std::time::Instant::now();
    while start.elapsed() < d {
        std::hint::spin_loop();
    }
}

#[test]
fn subtraction_never_underflows() {
    let source = TimeSource::new();
    let a = Instant::now(&source);
    let b = a.add_duration(Duration::from_secs(5));
    assert_eq!(b.duration_since(a).as_secs(), 5);
    assert_eq!(a.duration_since(b).as_ticks(), 0);
    assert_eq!(a.duration_since(a).as_ticks(), 0);
    assert_eq!((b - a).as_secs(), 5);
    assert_eq!((a - b).as_ticks(), 0);
}

#[test]
fn shifting_by_durations() {
    let source = TimeSource::new();
    let a = Instant::now(&source);
    let b = a.add_duration(Duration::from_secs(5));
    assert_eq!(b.sub_duration(Duration::from_secs(5)), a);
    assert_eq!(a + Duration::from_secs(5), b);
    assert_eq!(b - Duration::from_secs(5), a);
    assert!(b > a);
}

#[test]
fn compound_shifts() {
    let source = TimeSource::new();
    let a = Instant::now(&source);
    let mut b = a;
    b += Duration::from_secs(5);
    assert_eq!(b.duration_since(a).as_secs(), 5);
    b -= Duration::from_secs(5);
    assert_eq!(b, a);
}

#[test]
fn readings_are_never_the_sentinel() {
    let source = TimeSource::new();
    assert_ne!(Instant::now(&source).as_ticks(), 0);
    assert_ne!(Instant::now_without_cache_update(&source).as_ticks(), 0);
    let fresh = TimeSource::new();
    assert_ne!(Instant::recent(&fresh).as_ticks(), 0);
}

#[test]
fn cache_is_stale_without_refresh() {
    let source = TimeSource::new();
    let ts = Instant::now(&source);
    busy_wait(std::time::Duration::from_millis(150));
    assert_eq!(Instant::recent(&source), ts);
    Instant::update(&source);
    assert!(Instant::recent(&source) > ts);
}

#[test]
fn cache_progresses_monotonically() {
    let source = TimeSource::new();
    let first = Instant::now(&source);
    busy_wait(std::time::Duration::from_millis(50));
    Instant::update(&source);
    assert!(Instant::recent(&source) >= first);
}

#[test]
fn now_without_cache_update_leaves_the_cache_alone() {
    let source = TimeSource::new();
    let ts = Instant::now(&source);
    busy_wait(std::time::Duration::from_millis(50));
    let fresh = Instant::now_without_cache_update(&source);
    assert!(fresh > ts);
    assert_eq!(Instant::recent(&source), ts);
}

#[test]
fn elapsed_tracks_real_time() {
    let source = TimeSource::new();
    let ts = Instant::now(&source);
    busy_wait(std::time::Duration::new(3, 0));
    let elapsed = ts.elapsed(&source).as_secs();
    assert!(elapsed >= 2);
    assert!(elapsed < 100);
    assert!(ts.elapsed_since_recent(&source) > Duration::from_secs(2));
}
