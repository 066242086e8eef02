use coarsetime::Clock;
use coarsetime::ClockError;
use coarsetime::Duration;
use coarsetime::Instant;
use coarsetime::TimeSource;

fn busy_wait(d: std::time::Duration) {
    let start = std::time::Instant::now();
    while start.elapsed() < d {
        std::hint::spin_loop();
    }
}

#[test]
fn offset_is_stable_across_a_sleep() {
    let source = TimeSource::new();
    let clock = Clock::new(&source).unwrap();
    Instant::update(&source);
    let recent = clock.recent_since_epoch(&source);
    busy_wait(std::time::Duration::from_millis(200));
    assert_eq!(clock.recent_since_epoch(&source), recent);
    assert!(clock.now_since_epoch(&source) > recent);
}

#[test]
fn update_advances_the_recent_view() {
    let source = TimeSource::new();
    let clock = Clock::new(&source).unwrap();
    Instant::update(&source);
    let recent = clock.recent_since_epoch(&source);
    busy_wait(std::time::Duration::from_millis(100));
    Clock::update(&source);
    assert!(clock.recent_since_epoch(&source) > recent);
}

#[test]
fn wall_time_looks_like_the_present() {
    let source = TimeSource::new();
    let clock = Clock::new(&source).unwrap();
    let now = clock.now_since_epoch(&source);
    assert!(now.as_secs() > 1_000_000_000);
    assert!(now.as_secs() < 10_000_000_000);
}

#[test]
fn set_recent_since_epoch_overrides_the_cache() {
    let source = TimeSource::new();
    let clock = Clock::new(&source).unwrap();
    let base = clock.now_since_epoch(&source);
    let target = base.saturating_add(Duration::from_secs(1000));
    clock.set_recent_since_epoch(&source, target);
    assert_eq!(clock.recent_since_epoch(&source), target);
}

#[test]
fn override_below_the_offset_stays_pinned() {
    let source = TimeSource::new();
    let clock = Clock::new(&source).unwrap();
    clock.set_recent_since_epoch(&source, Duration::from_secs(1));
    let first = clock.recent_since_epoch(&source);
    busy_wait(std::time::Duration::from_millis(100));
    assert_eq!(clock.recent_since_epoch(&source), first);
}

#[test]
fn missing_wall_reading_is_fatal() {
    let source = TimeSource::new();
    let mono = Instant::now(&source);
    let refused = Clock::from_readings(mono, None);
    assert_eq!(refused.unwrap_err(), ClockError::WallClockUnavailable);
}

#[test]
fn offset_reproduces_the_paired_wall_reading() {
    let source = TimeSource::new();
    let mono = Instant::now(&source);
    let wall = Duration::from_ticks(mono.as_ticks()).saturating_add(Duration::from_secs(7));
    let clock = Clock::from_readings(mono, Some(wall)).unwrap();
    assert_eq!(clock.since_epoch_of(mono), wall);
}
