use std::time::{Duration, SystemTime};
use webe_id::{WebeIDError, WebeIDFactory};

const NODE_SHIFT: u64 = 16;
const TS_SHIFT: u64 = 24;

fn custom_epoch() -> SystemTime {
    SystemTime::UNIX_EPOCH
        .checked_add(Duration::from_millis(1546300800000)) // 01-01-2019 12:00:00 AM GMT
        .expect("failed to create custom epoch")
}

#[test]
fn test() {
    let epoch = custom_epoch();
    let mut factory = WebeIDFactory::new(epoch, 0u8).unwrap();
    let id = factory.next().unwrap();
    println!("New ID: {:x}", id);
}

#[test]
fn bit_layout_round_trip() {
    let mut factory = WebeIDFactory::new_at(custom_epoch(), 5u8, 1_000_000).unwrap();
    let mut id: u64 = 0;
    for _ in 0..4 {
        id = factory.next_at(1000).unwrap();
    }
    assert_eq!(id, (1000u64 << TS_SHIFT) | (5u64 << NODE_SHIFT) | 3u64);
    assert_eq!(id >> TS_SHIFT, 1000);
    assert_eq!((id >> NODE_SHIFT) & 0xFF, 5);
    assert_eq!(id & 0xFFFF, 3);
}

#[test]
fn uniqueness_and_monotonic_timestamps() {
    let mut factory = WebeIDFactory::new_at(custom_epoch(), 9u8, 1_000_000).unwrap();
    let clocks: [u128; 8] = [10, 10, 10, 11, 50, 50, 51, 300];
    let mut ids: Vec<u64> = Vec::new();
    for c in clocks {
        ids.push(factory.next_at(c).unwrap());
    }
    for i in 0..ids.len() {
        for j in 0..ids.len() {
            if i != j {
                assert_ne!(ids[i], ids[j]);
            }
        }
        if i + 1 < ids.len() {
            assert!(ids[i] < ids[i + 1]);
            assert!(ids[i] >> TS_SHIFT <= ids[i + 1] >> TS_SHIFT);
        }
    }
}

#[test]
fn sequence_resets_on_new_millisecond() {
    let mut factory = WebeIDFactory::new_at(custom_epoch(), 2u8, 1_000_000).unwrap();
    let first = factory.next_at(1000).unwrap();
    let second = factory.next_at(1000).unwrap();
    let third = factory.next_at(2000).unwrap();
    assert_eq!(first & 0xFFFF, 0);
    assert_eq!(second & 0xFFFF, 1);
    assert_ne!(second >> TS_SHIFT, third >> TS_SHIFT);
    assert_eq!(third & 0xFFFF, 0);
}

#[test]
fn overflow_boundary() {
    let mut factory = WebeIDFactory::new_at(custom_epoch(), 1u8, 1_000_000).unwrap();
    for expected_sequence in 0..65536u64 {
        let id = factory.next_at(77).unwrap();
        assert_eq!(id & 0xFFFF, expected_sequence);
        assert_eq!(id >> TS_SHIFT, 77);
    }
    let overflowing = factory.next_at(77);
    assert!(matches!(overflowing, Err(WebeIDError::SequenceOverflow)));
    // The next millisecond opens a fresh window.
    let recovered = factory.next_at(78).unwrap();
    assert_eq!(recovered & 0xFFFF, 0);
}

#[test]
fn rewind_detection_leaves_state_unchanged() {
    let mut factory = WebeIDFactory::new_at(custom_epoch(), 3u8, 1_000_000).unwrap();
    let before = factory.next_at(1000).unwrap();
    let rewound = factory.next_at(999);
    assert!(matches!(rewound, Err(WebeIDError::TimeRewind)));
    // The failed call changed nothing: the same reading continues the
    // sequence exactly where it stopped.
    let after = factory.next_at(1000).unwrap();
    assert_eq!(before & 0xFFFF, 0);
    assert_eq!(after & 0xFFFF, 1);
    assert_eq!(after, before + 1);
}

#[test]
fn construction_rejects_future_epoch() {
    let future_epoch = SystemTime::now()
        .checked_add(Duration::from_secs(3600))
        .expect("failed to create future epoch");
    assert!(matches!(
        WebeIDFactory::new(future_epoch, 0u8),
        Err(WebeIDError::BadEpoch)
    ));
}

#[test]
fn construction_requires_max_sequence_span_headroom() {
    assert!(matches!(
        WebeIDFactory::new_at(custom_epoch(), 0u8, 65534),
        Err(WebeIDError::BadEpoch)
    ));
    assert!(WebeIDFactory::new_at(custom_epoch(), 0u8, 65535).is_ok());
}

#[test]
fn resume_rejects_checkpoint_not_strictly_past() {
    assert!(matches!(
        WebeIDFactory::new_with_last_time(custom_epoch(), u64::MAX, 0u8),
        Err(WebeIDError::BadLastDuration)
    ));
    assert!(matches!(
        WebeIDFactory::new_with_last_time_at(custom_epoch(), 100_000, 0u8, 100_000),
        Err(WebeIDError::BadLastDuration)
    ));
    assert!(matches!(
        WebeIDFactory::new_with_last_time_at(custom_epoch(), 100_000, 0u8, 65_000),
        Err(WebeIDError::BadEpoch)
    ));
}

#[test]
fn resume_seeds_checkpoint() {
    let mut factory =
        WebeIDFactory::new_with_last_time_at(custom_epoch(), 100_000, 0u8, 100_001).unwrap();
    // A reading behind the checkpoint is a rewind even though the factory
    // has issued nothing yet.
    assert!(matches!(
        factory.next_at(99_999),
        Err(WebeIDError::TimeRewind)
    ));
    let id = factory.next_at(100_000).unwrap();
    assert_eq!(id >> TS_SHIFT, 100_000);
    assert_eq!(id & 0xFFFF, 0);
}

#[test]
fn resume_from_real_clock_continues() {
    let mut factory = WebeIDFactory::new_with_last_time(custom_epoch(), 1, 7u8).unwrap();
    let id = factory.next().unwrap();
    assert_eq!((id >> NODE_SHIFT) & 0xFF, 7);
}

#[test]
fn clock_read_failure_is_passed_on() {
    // Build deterministically against a far-future epoch, then let the real
    // clock read fail: elapsed time since that epoch cannot be computed.
    let future_epoch = SystemTime::now()
        .checked_add(Duration::from_secs(3600))
        .expect("failed to create future epoch");
    let mut factory = WebeIDFactory::new_at(future_epoch, 0u8, 1_000_000).unwrap();
    assert!(matches!(
        factory.next(),
        Err(WebeIDError::SystemTimeError(_))
    ));
}

#[test]
fn real_clock_ids_are_distinct() {
    let mut factory = WebeIDFactory::new(custom_epoch(), 42u8).unwrap();
    let mut ids: Vec<u64> = Vec::new();
    for _ in 0..100 {
        ids.push(factory.next().unwrap());
    }
    for i in 0..ids.len() {
        assert_eq!((ids[i] >> NODE_SHIFT) & 0xFF, 42);
        for j in 0..i {
            assert_ne!(ids[i], ids[j]);
        }
    }
}
