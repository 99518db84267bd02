use motor_lib::mock::MockHandle;
use motor_lib::{blmd, md, sd, send_emergency, smd, Error};

#[test]
fn md_receive_discards_until_address_matches() {
    // a frame for another device, then the answer for address 0x01
    let frames = vec![
        [0x02, 0, 0, 0, 0, 0, 0, 0],
        [0x01, 5, 0x00, 0x2d, 0x00, 0x44, 1, 0],
    ];
    let mut handle = MockHandle::new(frames);
    let status = md::receive_status(&mut handle, 0x01).unwrap();
    assert_eq!(status.address, 0x01);
    assert_eq!(status.semi_id, 5);
    assert_eq!(status.angle, 45);
    // 0x44 = 68 encoder counts decode to 100 rpm
    assert_eq!(status.speed, 100);
    assert!(status.limsw.limsw_0);
    assert!(!status.limsw.limsw_1);
    assert_eq!(handle.remaining(), 0);
}

#[test]
fn md_receive_returns_first_matching_frame() {
    let frames = vec![
        [0x03, 0, 0, 0, 0, 0, 0, 0],
        [0x01, 1, 0, 0, 0, 0, 0, 0],
        [0x01, 2, 0, 0, 0, 0, 0, 0],
    ];
    let mut handle = MockHandle::new(frames);
    let status = md::receive_status(&mut handle, 0x01).unwrap();
    assert_eq!(status.semi_id, 1);
    assert_eq!(handle.remaining(), 1);
}

#[test]
fn md_receive_saturates_out_of_range_speed() {
    // 30000 counts decode to 43945 rpm, beyond the i16 field
    let frames = vec![[0x01, 0, 0, 0, 0x75, 0x30, 0, 0]];
    let mut handle = MockHandle::new(frames);
    let status = md::receive_status(&mut handle, 0x01).unwrap();
    assert_eq!(status.speed, 32767);
}

#[test]
fn md_receive_propagates_a_timed_out_read() {
    let mut handle = MockHandle::new(vec![]);
    assert_eq!(md::receive_status(&mut handle, 0x01), Err(Error::IOFailure));
}

#[test]
fn md_send_pwm_emits_sign_magnitude_frame() {
    let mut handle = MockHandle::new(vec![[0x00, 0, 0, 0, 0, 0, 0, 0]]);
    md::send_pwm(&mut handle, 0x00, 1000).unwrap();
    assert_eq!(handle.writes()[0], vec![0x00, 0x60, 0x02, 0x00, 0x03, 0xe8, 0, 0]);

    let mut handle = MockHandle::new(vec![[0x00, 0, 0, 0, 0, 0, 0, 0]]);
    md::send_pwm(&mut handle, 0x00, -1000).unwrap();
    assert_eq!(handle.writes()[0], vec![0x00, 0x60, 0x02, 0x01, 0x03, 0xe8, 0, 0]);
}

#[test]
fn md_send_speed_converts_rpm_to_counts() {
    let mut handle = MockHandle::new(vec![[0x00, 0, 0, 0, 0, 0, 0, 0]]);
    md::send_speed(&mut handle, 0x00, 100).unwrap();
    // 100 rpm is 68 counts
    assert_eq!(handle.writes()[0], vec![0x00, 0x60, 0x03, 0x00, 0x00, 68, 0, 0]);
}

#[test]
fn md_send_speed_zero_falls_back_to_pwm() {
    let mut handle = MockHandle::new(vec![[0x00, 0, 0, 0, 0, 0, 0, 0]]);
    md::send_speed(&mut handle, 0x00, 0).unwrap();
    assert_eq!(handle.writes()[0], vec![0x00, 0x60, 0x02, 0x00, 0x00, 0x00, 0, 0]);
}

#[test]
fn md_send_angle_emits_sign_magnitude_frame() {
    let mut handle = MockHandle::new(vec![[0x00, 0, 0, 0, 0, 0, 0, 0]]);
    md::send_angle(&mut handle, 0x00, -90).unwrap();
    assert_eq!(handle.writes()[0], vec![0x00, 0x60, 0x04, 0x01, 0x00, 90, 0, 0]);
}

#[test]
fn md_send_limsw_emits_raw_twos_complement_powers() {
    let mut handle = MockHandle::new(vec![[0x00, 0, 0, 0, 0, 0, 0, 0]]);
    md::send_limsw(&mut handle, 0x00, 1, 1000, -500).unwrap();
    assert_eq!(handle.writes()[0], vec![0x00, 0x60, 0x05, 0x01, 0x03, 0xe8, 0xfe, 0x0c]);
}

#[test]
fn md_send_propagates_receive_failure() {
    let mut handle = MockHandle::new(vec![]);
    assert_eq!(md::send_pwm(&mut handle, 0x00, 1000), Err(Error::IOFailure));
    // the command frame itself still went out
    assert_eq!(handle.writes().len(), 1);
}

#[test]
fn sd_send_power_emits_expected_frame() {
    // power 1000 on port 0 of the solenoid driver at 0x10
    let mut handle = MockHandle::new(vec![[0x10, 0, 0, 0, 0, 0, 0, 0]]);
    sd::send_power(&mut handle, 0x10, 0, 1000).unwrap();
    assert_eq!(handle.writes()[0], vec![0x10, 0x60, 0x03, 0x00, 0x03, 0xe8, 0x00, 0x00]);
}

#[test]
fn sd_send_powers_keeps_twos_complement_values() {
    let mut handle = MockHandle::new(vec![[0x10, 0, 0, 0, 0, 0, 0, 0]]);
    sd::send_powers(&mut handle, 0x00, 1000, -1000).unwrap();
    assert_eq!(handle.writes()[0], vec![0x10, 0x60, 0x01, 0x00, 0x03, 0xe8, 0xfc, 0x18]);
}

#[test]
fn sd_receive_matches_on_class_qualified_address() {
    let frames = vec![
        [0x01, 0, 0, 0, 0, 0, 0, 0],
        [0x11, 3, 0x00, 0x0a, 0xff, 0xfe, 0, 1],
    ];
    let mut handle = MockHandle::new(frames);
    let status = sd::receive_status(&mut handle, 0x01).unwrap();
    assert_eq!(status.address, 0x11);
    assert_eq!(status.semi_id, 3);
    assert_eq!(status.port_0, 10);
    assert_eq!(status.port_1, -2);
    assert!(!status.limsw.limsw_0);
    assert!(status.limsw.limsw_1);
}

#[test]
fn smd_send_angle_emits_expected_frame() {
    let mut handle = MockHandle::new(vec![[0x20, 0, 0, 0, 0, 0, 0, 0]]);
    smd::send_angle(&mut handle, 0x00, 1, 45).unwrap();
    assert_eq!(handle.writes()[0], vec![0x20, 0x60, 0x01, 0x01, 0x00, 45, 0, 0]);
}

#[test]
fn smd_send_angles_emits_expected_frame() {
    let mut handle = MockHandle::new(vec![[0x20, 0, 0, 0, 0, 0, 0, 0]]);
    smd::send_angles(&mut handle, 0x00, 30, -60).unwrap();
    assert_eq!(handle.writes()[0], vec![0x20, 0x60, 0x02, 0x00, 0x00, 30, 0x01, 60]);
}

#[test]
fn smd_receive_matches_on_servo_class_address() {
    let frames = vec![
        [0x10, 0, 0, 0, 0, 0, 0, 0],
        [0x21, 4, 0x00, 0x1e, 0x00, 0x3c, 0, 0],
    ];
    let mut handle = MockHandle::new(frames);
    let status = smd::receive_status(&mut handle, 0x01).unwrap();
    assert_eq!(status.address, 0x21);
    assert_eq!(status.angle_0, 30);
    assert_eq!(status.angle_1, 60);
}

#[test]
fn blmd_send_current_emits_composite_identifier_frame() {
    // the scenario: controller 1, current 1000
    let frames = vec![[0x02, 0x01, 0, 0, 0, 0, 0, 0]];
    let mut handle = MockHandle::new(frames);
    let status = blmd::send_current(&mut handle, 1, 1000).unwrap();
    assert_eq!(handle.writes()[0], vec![0x30, 0x00, 0x01, 0x03, 0xe8, 0x00, 0x00, 0x00]);
    assert_eq!(status.std_id, 0x201);
}

#[test]
fn blmd_receive_discards_non_matching_identifiers() {
    let frames = vec![
        // 0x202: another controller
        [0x02, 0x02, 0, 0, 0, 0, 0, 0],
        // 0x301: not a status identifier for controller 1
        [0x03, 0x01, 0, 0, 0, 0, 0, 0],
        // 0x201: the one awaited
        [0x02, 0x01, 0x00, 0x2d, 0xff, 0xf6, 0x00, 0x64],
    ];
    let mut handle = MockHandle::new(frames);
    let status = blmd::receive_status(&mut handle, 1).unwrap();
    assert_eq!(status.std_id, 0x201);
    assert_eq!(status.angle, 45);
    assert_eq!(status.speed, -10);
    assert_eq!(status.current, 100);
    assert_eq!(handle.remaining(), 0);
}

#[test]
fn blmd_receive_propagates_a_timed_out_read() {
    let mut handle = MockHandle::new(vec![]);
    assert_eq!(blmd::receive_status(&mut handle, 1), Err(Error::IOFailure));
}

#[test]
fn emergency_frame_broadcasts_to_every_device() {
    let mut handle = MockHandle::new(vec![]);
    let written = send_emergency(&mut handle).unwrap();
    assert_eq!(written, 8);
    assert_eq!(handle.writes()[0], vec![0xf0, 0x60, 0, 0, 0, 0, 0, 0]);
}
