use std::time::Duration;

use motor_lib::hotplug::HotplugSlot;
use motor_lib::mock::MockHandle;
use motor_lib::pid::VelPid;
use motor_lib::relay::{
    relay_read_outcome, relay_write_outcome, server_read_reply, server_write_reply, RelayRead,
};
use motor_lib::{blmd, sr, Error, HandleTrait};

#[test]
fn pid_proportional_step_matches_hand_computation() {
    let mut pid = VelPid::new(1000, 0, 0, -10000, 10000);
    // gain 1.0, error 100: the output is the error itself
    assert_eq!(pid.update(100, 0, 10), 100);
}

#[test]
fn pid_integral_accumulates_error_times_period() {
    let mut pid = VelPid::new(0, 1000, 0, -30000, 30000);
    // integral after one step: 100 * 10 ms = 1000; gain 1.0 applies it whole
    assert_eq!(pid.update(100, 0, 10), 1000);
    // a second identical step doubles the accumulator
    assert_eq!(pid.update(100, 0, 10), 2000);
}

#[test]
fn pid_derivative_scales_error_change_per_second() {
    let mut pid = VelPid::new(0, 0, 100, -30000, 30000);
    // first step: error jumps from 0 to 100, that is 10000 per second;
    // gain 0.1 makes it 1000
    assert_eq!(pid.update(100, 0, 10), 1000);
    // second step: the error is unchanged, so the derivative term is zero
    assert_eq!(pid.update(100, 0, 10), 0);
}

#[test]
fn pid_output_is_clamped_to_the_configured_interval() {
    let mut pid = VelPid::new(1000, 0, 0, -50, 50);
    assert_eq!(pid.update(100, 0, 10), 50);
    assert_eq!(pid.update(-100, 0, 10), -50);
}

#[test]
fn send_velocity_runs_one_closed_loop_cycle() {
    // first the status read (measured speed 0), then the reply to the
    // current command (measured speed 10)
    let frames = vec![
        [0x02, 0x01, 0, 0, 0x00, 0x00, 0, 0],
        [0x02, 0x01, 0, 0, 0x00, 0x0a, 0, 0],
    ];
    let mut handle = MockHandle::new(frames);
    let mut pid = VelPid::new(1000, 0, 0, -10000, 10000);
    let status = blmd::send_velocity(&mut handle, &mut pid, 1, 100).unwrap();
    // error 100 at gain 1.0 commands a current of 100 = 0x0064
    assert_eq!(handle.writes()[0], vec![0x30, 0x00, 0x01, 0x00, 0x64, 0x00, 0x00, 0x00]);
    // the returned status is the reply to the current command
    assert_eq!(status.speed, 10);
    assert_eq!(handle.remaining(), 0);
}

#[test]
fn send_velocity_propagates_a_failed_status_read() {
    let mut handle = MockHandle::new(vec![]);
    let mut pid = VelPid::new(1000, 0, 0, -10000, 10000);
    assert_eq!(blmd::send_velocity(&mut handle, &mut pid, 1, 100), Err(Error::IOFailure));
    // no command was sent for the skipped cycle
    assert_eq!(handle.writes().len(), 0);
}

#[test]
fn hotplug_departure_makes_writes_fail_softly() {
    let device = MockHandle::new(vec![]);
    let mut slot: HotplugSlot<MockHandle> = HotplugSlot::with_device(device);
    slot.device_left();
    let frame: [u8; 8] = [0xf0, 0x60, 0, 0, 0, 0, 0, 0];
    // a write against the absent handle reports the transport missing,
    // never panics
    assert_eq!(slot.write_bulk(&frame, Duration::from_millis(5)), Err(Error::TransportNotFound));
    let mut buffer: [u8; 8] = [0; 8];
    assert_eq!(
        slot.read_bulk(&mut buffer, Duration::from_millis(5)),
        Err(Error::TransportNotFound)
    );
}

#[test]
fn hotplug_arrival_restores_the_transport() {
    let mut slot: HotplugSlot<MockHandle> = HotplugSlot::new();
    let frame: [u8; 8] = [0xf0, 0x60, 0, 0, 0, 0, 0, 0];
    assert_eq!(slot.write_bulk(&frame, Duration::from_millis(5)), Err(Error::TransportNotFound));
    slot.device_arrived(MockHandle::new(vec![]));
    assert_eq!(slot.write_bulk(&frame, Duration::from_millis(5)), Ok(8));
}

#[test]
fn relay_write_fault_maps_to_remote_call_failure() {
    // a far-end fault surfaces as RemoteCallFailure, without retry
    assert_eq!(relay_write_outcome(None), Err(Error::RemoteCallFailure));
}

#[test]
fn relay_write_sentinel_maps_to_transport_not_found() {
    assert_eq!(relay_write_outcome(Some(-1)), Err(Error::TransportNotFound));
    assert_eq!(relay_write_outcome(Some(8)), Ok(8));
}

#[test]
fn relay_read_checks_the_payload_length() {
    match relay_read_outcome(8, Some(vec![1, 2, 3, 4, 5, 6, 7, 8])) {
        RelayRead::Frame(payload) => assert_eq!(payload, vec![1, 2, 3, 4, 5, 6, 7, 8]),
        _ => panic!("an exact-length payload must be delivered"),
    }
    assert!(matches!(relay_read_outcome(8, Some(vec![1, 2, 3])), RelayRead::LengthMismatch));
    assert!(matches!(
        relay_read_outcome(8, None),
        RelayRead::Failed(Error::RemoteCallFailure)
    ));
}

#[test]
fn relay_server_replies() {
    assert_eq!(server_write_reply(Some(8)), 8);
    assert_eq!(server_write_reply(None), -1);
    assert_eq!(server_read_reply(8, None), vec![0; 8]);
    assert_eq!(server_read_reply(4, Some(vec![9, 9, 9, 9])), vec![9, 9, 9, 9]);
}

#[test]
fn sr_commands_emit_expected_frames() {
    let mut handle = MockHandle::new(vec![]);
    sr::send_stop(&mut handle).unwrap();
    sr::send_start(&mut handle, 1000).unwrap();
    sr::send_colors(&mut handle, 255, 10, 20, 2, 1000).unwrap();
    assert_eq!(handle.writes()[0], vec![0x40, 0x60, 0x01, 0, 0, 0, 0, 0]);
    assert_eq!(handle.writes()[1], vec![0x40, 0x60, 0x02, 0, 0, 0, 0, 0]);
    // green, red, blue order on the wire, then the quarter-hertz byte
    assert_eq!(handle.writes()[2], vec![0x40, 0x60, 0x03, 0, 10, 255, 20, 2]);
}

#[test]
fn error_messages_name_each_failure() {
    assert_eq!(Error::TransportNotFound.message(), "transport not found");
    assert_eq!(Error::IOFailure.message(), "bulk transfer failure");
    assert_eq!(Error::RemoteCallFailure.message(), "remote call failure");
}
