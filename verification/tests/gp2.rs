use volume_limits::{calculate_gp2_limits, Field, Limit, LimitError};

fn burstable(iops: u32, speed: u32, burst_speed: u32) -> Limit {
    Limit { iops, speed, burst_iops: 3000, burst_speed }
}

fn flat(iops: u32, speed: u32) -> Limit {
    Limit { iops, speed, burst_iops: 0, burst_speed: 0 }
}

fn size_refused(value: u32) -> LimitError {
    LimitError::OutOfRange { field: Field::VolumeSize, value, min: 1, max: 16384 }
}

#[test]
fn test_gp2_1500() {
    let limit = calculate_gp2_limits(1500).unwrap();
    assert_eq!(limit.iops, 4500);
    assert_eq!(limit.speed, 250);
    assert_eq!(limit.burst_iops, 0);
    assert_eq!(limit.burst_speed, 0);
}

#[test]
fn test_gp2_20() {
    let limit = calculate_gp2_limits(20).unwrap();
    assert_eq!(limit.iops, 100);
    assert_eq!(limit.speed, 25);
    assert_eq!(limit.burst_iops, 3000);
    assert_eq!(limit.burst_speed, 128);
}

#[test]
fn test_gp2_1000() {
    let limit = calculate_gp2_limits(1000).unwrap();
    assert_eq!(limit.iops, 3000);
    assert_eq!(limit.speed, 250);
    assert_eq!(limit.burst_iops, 3000);
    assert_eq!(limit.burst_speed, 250);
}

#[test]
fn test_gp2_10000() {
    let limit = calculate_gp2_limits(10000).unwrap();
    assert_eq!(limit.iops, 16000);
    assert_eq!(limit.speed, 250);
    assert_eq!(limit.burst_iops, 0);
    assert_eq!(limit.burst_speed, 0);
}

#[test]
fn test_gp2_3000() {
    let limit = calculate_gp2_limits(3000).unwrap();
    assert_eq!(limit.iops, 9000);
    assert_eq!(limit.speed, 250);
    assert_eq!(limit.burst_iops, 0);
    assert_eq!(limit.burst_speed, 0);
}

#[test]
fn gp2_smallest_volume_gets_the_iops_floor() {
    assert_eq!(calculate_gp2_limits(1), Ok(burstable(100, 25, 128)));
}

#[test]
fn gp2_iops_floor_ends_above_33_gib() {
    assert_eq!(calculate_gp2_limits(33), Ok(burstable(100, 25, 128)));
    assert_eq!(calculate_gp2_limits(34), Ok(burstable(102, 25, 128)));
}

#[test]
fn gp2_throughput_is_a_quarter_of_iops_rounded_down() {
    assert_eq!(calculate_gp2_limits(35), Ok(burstable(105, 26, 128)));
    assert_eq!(calculate_gp2_limits(100), Ok(burstable(300, 75, 128)));
    assert_eq!(calculate_gp2_limits(200), Ok(burstable(600, 150, 250)));
}

#[test]
fn gp2_small_tier_ends_at_169_gib() {
    assert_eq!(calculate_gp2_limits(169), Ok(burstable(507, 126, 128)));
}

#[test]
fn gp2_middle_tier_starts_at_170_gib() {
    assert_eq!(calculate_gp2_limits(170), Ok(burstable(510, 127, 250)));
}

#[test]
fn gp2_small_tier_throughput_never_reaches_its_cap() {
    for size in 1..170u32 {
        let limit = calculate_gp2_limits(size).unwrap();
        assert!(limit.speed < 128);
        assert_eq!(limit.speed, limit.iops / 4);
    }
}

#[test]
fn gp2_middle_tier_throughput_caps_at_250() {
    assert_eq!(calculate_gp2_limits(333), Ok(burstable(999, 249, 250)));
    assert_eq!(calculate_gp2_limits(334), Ok(burstable(1002, 250, 250)));
    assert_eq!(calculate_gp2_limits(999), Ok(burstable(2997, 250, 250)));
}

#[test]
fn gp2_middle_tier_ends_at_1000_gib() {
    assert_eq!(calculate_gp2_limits(1000), Ok(burstable(3000, 250, 250)));
    assert_eq!(calculate_gp2_limits(1001), Ok(flat(3003, 250)));
}

#[test]
fn gp2_iops_cap_at_16000() {
    assert_eq!(calculate_gp2_limits(5333), Ok(flat(15999, 250)));
    assert_eq!(calculate_gp2_limits(5334), Ok(flat(16000, 250)));
    assert_eq!(calculate_gp2_limits(16384), Ok(flat(16000, 250)));
}

#[test]
fn gp2_refuses_size_zero() {
    assert_eq!(calculate_gp2_limits(0), Err(size_refused(0)));
}

#[test]
fn gp2_refuses_size_above_16384() {
    assert_eq!(calculate_gp2_limits(16385), Err(size_refused(16385)));
    assert_eq!(calculate_gp2_limits(u32::MAX), Err(size_refused(u32::MAX)));
}

#[test]
fn gp2_succeeds_on_every_admissible_size() {
    for size in 1..=16384u32 {
        assert!(calculate_gp2_limits(size).is_ok());
    }
}

#[test]
fn gp2_same_size_gives_same_result() {
    for size in [0u32, 1, 20, 169, 170, 1000, 1001, 16384, 16385] {
        assert_eq!(calculate_gp2_limits(size), calculate_gp2_limits(size));
    }
}

#[test]
fn gp2_bursts_exactly_up_to_1000_gib() {
    for size in 1..=16384u32 {
        let limit = calculate_gp2_limits(size).unwrap();
        if size <= 1000 {
            assert_eq!(limit.burst_iops, 3000);
            assert!(limit.burst_speed == 128 || limit.burst_speed == 250);
        } else {
            assert_eq!((limit.burst_iops, limit.burst_speed), (0, 0));
        }
    }
}
