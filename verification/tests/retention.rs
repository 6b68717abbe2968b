use pdcst::retention::{RetentionCaps, Sweep, SweepAction};

fn sweep(caps: RetentionCaps, files: &[(u128, u64)], playing: Option<u128>) -> Vec<u128> {
    let mut s = Sweep::new();
    for (_, size) in files {
        s.record_file(*size);
    }
    let mut evicted = Vec::new();
    if caps.is_unlimited() {
        return evicted;
    }
    for (id, size) in files {
        match caps.decide(&s, *id, playing) {
            SweepAction::Finish => break,
            SweepAction::KeepPlaying => continue,
            SweepAction::Evict => {
                evicted.push(*id);
                s.record_eviction(*size);
            }
        }
    }
    evicted
}

#[test]
fn evicts_oldest_over_episode_cap() {
    let caps = RetentionCaps::new(2, 0);
    assert_eq!(sweep(caps, &[(1, 100), (2, 100), (3, 100)], None), vec![1]);
}

#[test]
fn evicts_over_byte_cap() {
    let caps = RetentionCaps::new(0, 1);
    assert_eq!(caps.max_bytes, 1024 * 1024);
    let half = 512 * 1024;
    assert_eq!(sweep(caps, &[(1, half), (2, half), (3, half)], None), vec![1]);
}

#[test]
fn never_evicts_currently_playing() {
    let caps = RetentionCaps::new(1, 0);
    assert_eq!(sweep(caps, &[(1, 100), (2, 100)], Some(1)), vec![2]);
}

#[test]
fn unlimited_caps_evict_nothing() {
    let caps = RetentionCaps::new(0, 0);
    assert!(caps.is_unlimited());
    assert!(!caps.over_caps(1000, u64::MAX));
    assert_eq!(sweep(caps, &[(1, 100), (2, 100)], None), Vec::<u128>::new());
}

#[test]
fn megabyte_cap_saturates() {
    assert_eq!(RetentionCaps::new(0, u64::MAX).max_bytes, u64::MAX);
}

#[test]
fn eviction_tally_never_underflows() {
    let mut s = Sweep::new();
    s.record_file(10);
    s.record_eviction(50);
    assert_eq!(s, Sweep { count: 0, total_bytes: 0, evicted: 1 });
    s.record_eviction(1);
    assert_eq!(s, Sweep { count: 0, total_bytes: 0, evicted: 2 });
}
