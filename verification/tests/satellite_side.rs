use sputnik::protocol::{CommandResultCode, FrameType, GROUND_STATION_ADDR, SATELLITE_ID};
use sputnik::satellite::{
    accepts_destination, command_ack, execute_ground_command, parse_ground_command,
    respond_to_command, sensors_due, telemetry_frame, CommandEffect, ReceivedCommand,
    SatelliteState,
};

fn rx_buffer(packet: &[u8]) -> [u8; 128] {
    let mut buf = [0u8; 128];
    buf[..packet.len()].copy_from_slice(packet);
    buf
}

#[test]
fn boot_state() {
    let s = SatelliteState::new(42);
    assert_eq!(s.beacon_interval_secs, 10);
    assert_eq!(s.setpoint_tenths, 280);
    assert!(!s.antenna_deployed);
    assert_eq!(s.last_beacon_ms, 42);
}

#[test]
fn beacon_timing_and_contents() {
    let mut s = SatelliteState::new(0);
    assert!(!s.beacon_due(9_999));
    assert!(s.beacon_due(10_000));
    let b = s.beacon(10_000);
    assert_eq!(b.frame_control, 0x01);
    assert_eq!(b.satellite_id, SATELLITE_ID);
    assert_eq!(b.beacon_interval, 10);
    assert_eq!(b.timestamp, 10_000);
    assert_eq!(b.reserved, 0);
    assert_eq!(s.last_beacon_ms, 10_000);
    assert!(!s.beacon_due(19_999));
    // The timestamp field keeps the milliseconds modulo 2^32.
    let b = s.beacon((1u64 << 32) + 5);
    assert_eq!(b.timestamp, 5);
}

#[test]
fn sensors_are_read_every_half_second() {
    assert!(!sensors_due(1000, 1499));
    assert!(sensors_due(1000, 1500));
}

#[test]
fn destination_filter() {
    assert!(accepts_destination(SATELLITE_ID));
    assert!(accepts_destination(0xFFFF_FFFF));
    assert!(!accepts_destination(GROUND_STATION_ADDR));
    assert!(!accepts_destination(2));
}

#[test]
fn ground_command_is_read_with_parameters() {
    let packet = [0x07, 0x01, 0, 0, 0, 0x10, 0, 0, 0, 0x01, 0x00, 0x03, 0x03, 0x0A, 0x00];
    let buf = rx_buffer(&packet);
    let c = parse_ground_command(&buf, packet.len()).unwrap();
    assert_eq!(c.dest_addr, SATELLITE_ID);
    assert_eq!(c.src_addr, GROUND_STATION_ADDR);
    assert_eq!(c.code, 0x03);
    assert_eq!(c.params, vec![0x0A, 0x00]);
}

#[test]
fn ground_command_without_parameters() {
    let packet = [0x17, 0x02, 0, 0, 0, 0x10, 0, 0, 0, 0x01, 0x00, 0x01, 0x01];
    let buf = rx_buffer(&packet);
    // The high four bits of the first byte are not part of the kind.
    let c = parse_ground_command(&buf, 13).unwrap();
    assert_eq!(c.dest_addr, 2);
    assert_eq!(c.code, 0x01);
    assert!(c.params.is_empty());
}

#[test]
fn other_packets_are_not_commands() {
    let mut buf = rx_buffer(&[0x07, 0x01, 0, 0, 0, 0x10, 0, 0, 0, 0x01, 0x00, 0x01, 0x01]);
    assert!(parse_ground_command(&buf, 12).is_none());
    buf[0] = FrameType::CommandAck.code();
    assert!(parse_ground_command(&buf, 13).is_none());
    let one = [0x07u8];
    assert!(parse_ground_command(&one, 1).is_none());
}

#[test]
fn telemetry_request_succeeds() {
    let mut s = SatelliteState::new(0);
    let before = s;
    assert_eq!(execute_ground_command(&mut s, 0x01, &[]), CommandEffect::Completed { success: true });
    assert_eq!(s, before);
}

#[test]
fn reset_reboots() {
    let mut s = SatelliteState::new(0);
    assert_eq!(execute_ground_command(&mut s, 0x02, &[]), CommandEffect::Reboot);
}

#[test]
fn beacon_interval_command() {
    let mut s = SatelliteState::new(0);
    assert_eq!(
        execute_ground_command(&mut s, 0x03, &[30, 0]),
        CommandEffect::Completed { success: true }
    );
    assert_eq!(s.beacon_interval_secs, 30);
    assert_eq!(
        execute_ground_command(&mut s, 0x03, &[0x2C, 0x01, 0xFF]),
        CommandEffect::Completed { success: true }
    );
    assert_eq!(s.beacon_interval_secs, 300);
    assert_eq!(
        execute_ground_command(&mut s, 0x03, &[5, 0]),
        CommandEffect::Completed { success: true }
    );
    assert_eq!(s.beacon_interval_secs, 5);
    assert_eq!(
        execute_ground_command(&mut s, 0x03, &[4, 0]),
        CommandEffect::Completed { success: false }
    );
    assert_eq!(
        execute_ground_command(&mut s, 0x03, &[60]),
        CommandEffect::Completed { success: false }
    );
    assert_eq!(s.beacon_interval_secs, 5);
}

#[test]
fn antenna_command() {
    let mut s = SatelliteState::new(0);
    assert_eq!(
        execute_ground_command(&mut s, 0x04, &[1]),
        CommandEffect::DeployAntenna { deploy: true }
    );
    assert!(s.antenna_deployed);
    assert_eq!(
        execute_ground_command(&mut s, 0x04, &[0, 9]),
        CommandEffect::DeployAntenna { deploy: false }
    );
    assert!(!s.antenna_deployed);
    assert_eq!(
        execute_ground_command(&mut s, 0x04, &[]),
        CommandEffect::Completed { success: false }
    );
}

#[test]
fn setpoint_command() {
    let mut s = SatelliteState::new(0);
    // 285 tenths: 28.5 °C.
    assert_eq!(
        execute_ground_command(&mut s, 0x05, &[0x1D, 0x01]),
        CommandEffect::Completed { success: true }
    );
    assert_eq!(s.setpoint_tenths, 285);
    // -200 tenths: -20.0 °C, the lowest allowed.
    let low = (-200i16).to_le_bytes();
    assert_eq!(
        execute_ground_command(&mut s, 0x05, &low),
        CommandEffect::Completed { success: true }
    );
    assert_eq!(s.setpoint_tenths, -200);
    let too_low = (-201i16).to_le_bytes();
    assert_eq!(
        execute_ground_command(&mut s, 0x05, &too_low),
        CommandEffect::Completed { success: false }
    );
    let high = 800i16.to_le_bytes();
    assert_eq!(
        execute_ground_command(&mut s, 0x05, &high),
        CommandEffect::Completed { success: true }
    );
    let too_high = 801i16.to_le_bytes();
    assert_eq!(
        execute_ground_command(&mut s, 0x05, &too_high),
        CommandEffect::Completed { success: false }
    );
    assert_eq!(s.setpoint_tenths, 800);
    assert_eq!(
        execute_ground_command(&mut s, 0x05, &[1]),
        CommandEffect::Completed { success: false }
    );
}

#[test]
fn relay_and_unknown_commands_fail() {
    let mut s = SatelliteState::new(0);
    let before = s;
    assert_eq!(
        execute_ground_command(&mut s, 0x06, &[1]),
        CommandEffect::Completed { success: false }
    );
    assert_eq!(
        execute_ground_command(&mut s, 0x00, &[]),
        CommandEffect::Completed { success: false }
    );
    assert_eq!(
        execute_ground_command(&mut s, 0x99, &[1, 2, 3]),
        CommandEffect::Completed { success: false }
    );
    assert_eq!(s, before);
}

#[test]
fn acknowledgements() {
    let a = command_ack(GROUND_STATION_ADDR, 0x03, CommandResultCode::Received);
    assert_eq!(
        a.to_bytes(),
        vec![0x04, 0x10, 0, 0, 0, 0x01, 0, 0, 0, 0x01, 0x00, 0x02, 0x03, 0xFE]
    );
}

#[test]
fn response_to_telemetry_request() {
    let mut s = SatelliteState::new(0);
    let cmd = ReceivedCommand { dest_addr: SATELLITE_ID, src_addr: 0x10, code: 0x01, params: vec![] };
    let r = respond_to_command(&mut s, &cmd);
    assert_eq!(r.received_ack.result_code, 0xFE);
    assert_eq!(r.received_ack.command_code, 0x01);
    assert_eq!(r.received_ack.header.dest_addr, 0x10);
    assert!(r.send_telemetry);
    assert_eq!(r.final_ack.result_code, 0x00);
}

#[test]
fn response_to_failed_command() {
    let mut s = SatelliteState::new(0);
    let cmd = ReceivedCommand { dest_addr: SATELLITE_ID, src_addr: 0x10, code: 0x06, params: vec![1] };
    let r = respond_to_command(&mut s, &cmd);
    assert!(!r.send_telemetry);
    assert_eq!(r.effect, CommandEffect::Completed { success: false });
    assert_eq!(r.final_ack.result_code, 0x01);
}

#[test]
fn response_to_antenna_command() {
    let mut s = SatelliteState::new(0);
    let cmd = ReceivedCommand { dest_addr: 0xFFFF_FFFF, src_addr: 0x10, code: 0x04, params: vec![1] };
    let r = respond_to_command(&mut s, &cmd);
    assert_eq!(r.effect, CommandEffect::DeployAntenna { deploy: true });
    assert!(!r.send_telemetry);
    assert_eq!(r.final_ack.result_code, 0x00);
    assert!(s.antenna_deployed);
}

#[test]
fn telemetry_frame_fields() {
    let f = telemetry_frame(
        0x10,
        25.0f32.to_bits(),
        26.0f32.to_bits(),
        4.2f32.to_bits(),
        80.0f32.to_bits(),
        28.0f32.to_bits(),
        (1u64 << 32) + 7000,
    );
    assert_eq!(f.header.frame_type, 0x05);
    assert_eq!(f.header.dest_addr, 0x10);
    assert_eq!(f.header.src_addr, SATELLITE_ID);
    assert_eq!(f.header.protocol_id, 0x04);
    assert_eq!(f.header.data_length, 26);
    assert_eq!(f32::from_bits(f.battery_voltage), 4.2f32);
    assert_eq!(f.uptime, 7000);
    assert_eq!(f.relay_mode, 0);
    assert_eq!(f.storage_count, 0);
    assert_eq!(f.to_bytes().len(), 38);
}
