use device_capture_system::{ConnectionStats, Interval, Timestamp};

#[test]
fn stats_count_frames_and_bytes() {
    let start = Timestamp { secs: 10, nanos: 500 };
    let mut stats = ConnectionStats::new(start);
    assert_eq!((stats.frames, stats.bytes), (0, 0));
    stats.update(100, Timestamp { secs: 11, nanos: 400 });
    assert_eq!((stats.frames, stats.bytes), (1, 100));
    assert_eq!(stats.last_interval, Interval { secs: 0, nanos: 999_999_900 });
    stats.update(50, Timestamp { secs: 13, nanos: 600 });
    assert_eq!((stats.frames, stats.bytes), (2, 150));
    assert_eq!(stats.last_interval, Interval { secs: 2, nanos: 200 });
    assert_eq!(stats.start_time, start);
    assert_eq!(stats.last_frame_time, Timestamp { secs: 13, nanos: 600 });
}

#[test]
fn duration_between_timestamps() {
    let a = Timestamp { secs: 5, nanos: 900_000_000 };
    let b = Timestamp { secs: 7, nanos: 100_000_000 };
    assert_eq!(b.duration_since(&a), Interval { secs: 1, nanos: 200_000_000 });
    assert_eq!(a.duration_since(&a), Interval::zero());
}

#[test]
fn stats_accept_only_countable_frames() {
    let stats = ConnectionStats::new(Timestamp { secs: 10, nanos: 500 });
    assert!(stats.accepts(1, Timestamp { secs: 10, nanos: 500 }));
    assert!(stats.accepts(u64::MAX, Timestamp { secs: 11, nanos: 0 }));
    // the clock ran back
    assert!(!stats.accepts(1, Timestamp { secs: 10, nanos: 499 }));
    assert!(!stats.accepts(1, Timestamp { secs: 9, nanos: 999_999_999 }));
    // not a well-formed time
    assert!(!stats.accepts(1, Timestamp { secs: 11, nanos: 1_000_000_000 }));
    let mut full = stats;
    full.bytes = u64::MAX - 3;
    assert!(full.accepts(3, Timestamp { secs: 11, nanos: 0 }));
    assert!(!full.accepts(4, Timestamp { secs: 11, nanos: 0 }));
    full.frames = u64::MAX;
    assert!(!full.accepts(0, Timestamp { secs: 11, nanos: 0 }));
}
