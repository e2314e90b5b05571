use nommo_volume::volume::{VolumeLevel, MAX_PERCENT};

#[test]
fn ceiling_is_one_hundred() {
    assert_eq!(MAX_PERCENT, 100);
}

#[test]
fn increment_adds_five_below_ceiling() {
    for v in 1..=95u8 {
        assert_eq!(VolumeLevel::Value(v).increment(5), VolumeLevel::Value(v + 5));
    }
}

#[test]
fn increment_clamps_at_ceiling() {
    for v in 96..=100u8 {
        assert_eq!(VolumeLevel::Value(v).increment(5), VolumeLevel::Value(100));
    }
}

#[test]
fn increment_from_muted_is_one_step() {
    assert_eq!(VolumeLevel::Muted.increment(5), VolumeLevel::Value(5));
}

#[test]
fn decrement_collapses_to_muted() {
    for v in 1..=5u8 {
        assert_eq!(VolumeLevel::Value(v).decrement(5), VolumeLevel::Muted);
    }
}

#[test]
fn decrement_subtracts_five_above_step() {
    for v in 6..=100u8 {
        assert_eq!(VolumeLevel::Value(v).decrement(5), VolumeLevel::Value(v - 5));
    }
}

#[test]
fn decrement_muted_is_noop() {
    assert_eq!(VolumeLevel::Muted.decrement(5), VolumeLevel::Muted);
}

#[test]
fn increment_at_ceiling_twice_stays() {
    let once = VolumeLevel::Value(100).increment(5);
    assert_eq!(once, VolumeLevel::Value(100));
    let twice = once.increment(5);
    assert_eq!(twice, VolumeLevel::Value(100));
}

#[test]
fn decrement_at_muted_twice_stays() {
    let once = VolumeLevel::Muted.decrement(5);
    assert_eq!(once, VolumeLevel::Muted);
    let twice = once.decrement(5);
    assert_eq!(twice, VolumeLevel::Muted);
}

#[test]
fn increment_with_other_steps() {
    assert_eq!(VolumeLevel::Value(40).increment(1), VolumeLevel::Value(41));
    assert_eq!(VolumeLevel::Value(40).increment(60), VolumeLevel::Value(100));
    assert_eq!(VolumeLevel::Value(40).increment(61), VolumeLevel::Value(100));
    assert_eq!(VolumeLevel::Value(1).increment(255), VolumeLevel::Value(100));
    assert_eq!(VolumeLevel::Muted.increment(1), VolumeLevel::Value(1));
    assert_eq!(VolumeLevel::Muted.increment(100), VolumeLevel::Value(100));
}

#[test]
fn decrement_with_other_steps() {
    assert_eq!(VolumeLevel::Value(40).decrement(1), VolumeLevel::Value(39));
    assert_eq!(VolumeLevel::Value(40).decrement(39), VolumeLevel::Value(1));
    assert_eq!(VolumeLevel::Value(40).decrement(40), VolumeLevel::Muted);
    assert_eq!(VolumeLevel::Value(100).decrement(255), VolumeLevel::Muted);
    assert_eq!(VolumeLevel::Muted.decrement(255), VolumeLevel::Muted);
}

#[test]
fn step_of_zero_changes_nothing() {
    assert_eq!(VolumeLevel::Muted.increment(0), VolumeLevel::Muted);
    assert_eq!(VolumeLevel::Muted.decrement(0), VolumeLevel::Muted);
    for v in 1..=100u8 {
        assert_eq!(VolumeLevel::Value(v).increment(0), VolumeLevel::Value(v));
        assert_eq!(VolumeLevel::Value(v).decrement(0), VolumeLevel::Value(v));
    }
}

#[test]
fn step_above_ceiling_reaches_ceiling_from_muted() {
    assert_eq!(VolumeLevel::Muted.increment(101), VolumeLevel::Value(100));
    assert_eq!(VolumeLevel::Muted.increment(255), VolumeLevel::Value(100));
}

#[test]
fn transitions_keep_levels_valid() {
    let mut levels = vec![VolumeLevel::Muted];
    for v in 1..=100u8 {
        levels.push(VolumeLevel::Value(v));
    }
    for level in levels.iter() {
        for step in 0..=255u8 {
            assert!(level.increment(step).is_valid());
            assert!(level.decrement(step).is_valid());
        }
    }
}

#[test]
fn transitions_are_saturating_arithmetic_on_percent() {
    let mut levels = vec![VolumeLevel::Muted];
    for v in 1..=100u8 {
        levels.push(VolumeLevel::Value(v));
    }
    for level in levels.iter() {
        for step in 0..=255u8 {
            let p = level.to_percent() as i32;
            let up = (p + step as i32).min(100);
            let down = (p - step as i32).max(0);
            assert_eq!(level.increment(step).to_percent() as i32, up);
            assert_eq!(level.decrement(step).to_percent() as i32, down);
        }
    }
}

#[test]
fn from_percent_collapses_zero_and_clamps() {
    assert_eq!(VolumeLevel::from_percent(0), VolumeLevel::Muted);
    assert_eq!(VolumeLevel::from_percent(1), VolumeLevel::Value(1));
    assert_eq!(VolumeLevel::from_percent(37), VolumeLevel::Value(37));
    assert_eq!(VolumeLevel::from_percent(100), VolumeLevel::Value(100));
    assert_eq!(VolumeLevel::from_percent(101), VolumeLevel::Value(100));
    assert_eq!(VolumeLevel::from_percent(255), VolumeLevel::Value(100));
}

#[test]
fn to_percent_reads_zero_for_muted() {
    assert_eq!(VolumeLevel::Muted.to_percent(), 0);
    assert_eq!(VolumeLevel::Value(1).to_percent(), 1);
    assert_eq!(VolumeLevel::Value(100).to_percent(), 100);
}

#[test]
fn percent_round_trip_on_valid_range() {
    for p in 0..=100u8 {
        assert_eq!(VolumeLevel::from_percent(p).to_percent(), p);
    }
}

#[test]
fn is_muted_tells_the_tag() {
    assert!(VolumeLevel::Muted.is_muted());
    assert!(!VolumeLevel::Value(1).is_muted());
    assert!(!VolumeLevel::Value(100).is_muted());
}

#[test]
fn is_valid_accepts_one_to_one_hundred() {
    assert!(VolumeLevel::Muted.is_valid());
    assert!(!VolumeLevel::Value(0).is_valid());
    assert!(VolumeLevel::Value(1).is_valid());
    assert!(VolumeLevel::Value(100).is_valid());
    assert!(!VolumeLevel::Value(101).is_valid());
    assert!(!VolumeLevel::Value(255).is_valid());
}
