use motor_lib::md::{count_to_rpm, rpm_to_count};

#[test]
fn rpm_to_count_exact_values() {
    // 12000 rpm is exactly 8192 counts.
    assert_eq!(rpm_to_count(12000), 8192);
    // 8192 * 100 / 12000 = 68.27, rounded to nearest.
    assert_eq!(rpm_to_count(100), 68);
    assert_eq!(rpm_to_count(-100), -68);
    assert_eq!(rpm_to_count(0), 0);
    // the extreme of the range still fits the wire field
    assert_eq!(rpm_to_count(32767), 22369);
    assert_eq!(rpm_to_count(-32768), -22370);
}

#[test]
fn count_to_rpm_exact_values() {
    assert_eq!(count_to_rpm(8192), 12000);
    // 12000 * 68 / 8192 = 99.6, rounded to nearest.
    assert_eq!(count_to_rpm(68), 100);
    assert_eq!(count_to_rpm(-68), -100);
    assert_eq!(count_to_rpm(0), 0);
    // counts beyond the speed range produce rpm beyond i16
    assert_eq!(count_to_rpm(30000), 43945);
}

#[test]
fn rpm_round_trip_stays_within_one() {
    let mut rpm: i32 = -32768;
    while rpm <= 32767 {
        let back = count_to_rpm(rpm_to_count(rpm as i16));
        assert!((back - rpm).abs() <= 1, "rpm {} came back as {}", rpm, back);
        rpm += 17;
    }
    for rpm in [-32768i32, -12000, -1, 0, 1, 12000, 32767] {
        let back = count_to_rpm(rpm_to_count(rpm as i16));
        assert!((back - rpm).abs() <= 1);
    }
}
