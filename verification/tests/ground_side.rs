use sputnik::ground::{
    command_echo_text, decode_station_frame, format_telemetry, ground_command_packet, handle_rx,
    menu_action, MenuAction, StationFrame, StationState,
};
use sputnik::protocol::{CommandResultCode, SatTelemetryFrame, GROUND_STATION_ADDR};
use sputnik::satellite::{command_ack, parse_ground_command, telemetry_frame, SatelliteState};

fn rx_buffer(packet: &[u8]) -> [u8; 128] {
    let mut buf = [0u8; 128];
    buf[..packet.len()].copy_from_slice(packet);
    buf
}

fn waiting_for(code: u8, at: u64) -> StationState {
    let mut s = StationState::new(0);
    s.command_sent(code, at);
    s
}

#[test]
fn start_state() {
    let s = StationState::new(7);
    assert!(!s.waiting_for_ack);
    assert!(!s.waiting_for_telemetry);
    assert_eq!(s.last_command_code, 0);
    assert_eq!(s.last_command_time, 7);
}

#[test]
fn command_packets() {
    assert_eq!(
        ground_command_packet(0x01, &[]),
        vec![0x07, 0x01, 0, 0, 0, 0x10, 0, 0, 0, 0x01, 0x00, 0x01, 0x01]
    );
    assert_eq!(
        ground_command_packet(0x05, &[0x1D, 0x01]),
        vec![0x07, 0x01, 0, 0, 0, 0x10, 0, 0, 0, 0x01, 0x00, 0x03, 0x05, 0x1D, 0x01]
    );
    let long = vec![0xAAu8; 115];
    let p = ground_command_packet(0x06, &long);
    assert_eq!(p.len(), 128);
    assert_eq!(p[11], 116);
}

#[test]
fn command_echo() {
    assert_eq!(command_echo_text(0x05), b"TX cmd 0x05\r\n".to_vec());
    assert_eq!(command_echo_text(0xAB), b"TX cmd 0xAB\r\n".to_vec());
}

#[test]
fn sending_starts_the_ack_wait() {
    let s = waiting_for(0x03, 500);
    assert!(s.waiting_for_ack);
    assert_eq!(s.last_command_code, 0x03);
    assert_eq!(s.last_command_time, 500);
}

#[test]
fn menu_keys() {
    let expect = [
        (b'1', 0x01, vec![]),
        (b'2', 0x02, vec![]),
        (b'3', 0x03, vec![10u8, 0u8]),
        (b'4', 0x04, vec![1u8]),
        (b'5', 0x05, vec![0x1D, 0x01]),
        (b'6', 0x06, vec![1u8]),
    ];
    for (key, code, params) in expect {
        match menu_action(key) {
            MenuAction::Send { code: c, params: p } => {
                assert_eq!(c, code);
                assert_eq!(p, params);
            }
            _ => panic!("key {} should send a command", key),
        }
    }
    assert!(matches!(menu_action(b'9'), MenuAction::ShowMenu));
    assert!(matches!(menu_action(b'0'), MenuAction::Nothing));
    assert!(matches!(menu_action(b'7'), MenuAction::Nothing));
    assert!(matches!(menu_action(b'x'), MenuAction::Nothing));
}

#[test]
fn ack_timeout() {
    let mut s = waiting_for(0x01, 1000);
    assert!(s.check_timeouts(4000).is_empty());
    assert!(s.waiting_for_ack);
    assert_eq!(s.check_timeouts(4001), b"Timeout waiting for ACK\r\n".to_vec());
    assert!(!s.waiting_for_ack);
    assert!(!s.waiting_for_telemetry);
    assert!(s.check_timeouts(20000).is_empty());
}

#[test]
fn telemetry_timeout() {
    let mut s = StationState::new(0);
    s.waiting_for_telemetry = true;
    s.last_command_time = 1000;
    assert!(s.check_timeouts(9000).is_empty());
    assert!(s.waiting_for_telemetry);
    assert_eq!(s.check_timeouts(9001), b"Timeout waiting for telemetry\r\n".to_vec());
    assert!(!s.waiting_for_telemetry);
}

#[test]
fn ack_timeout_also_ends_telemetry_wait() {
    let mut s = waiting_for(0x01, 0);
    s.waiting_for_telemetry = true;
    assert_eq!(s.check_timeouts(10_000), b"Timeout waiting for ACK\r\n".to_vec());
    assert!(!s.waiting_for_telemetry);
}

#[test]
fn beacon_report() {
    let packet = [0x01u8, 0x01, 0x00, 0x00, 0x00, 0x0A, 0x00, 0xF4, 0x01, 0x00, 0x00, 0x00];
    let buf = rx_buffer(&packet);
    let mut s = waiting_for(0x03, 7);
    let before = s;
    let r = handle_rx(&mut s, &buf, 12, 100);
    assert_eq!(r.text, b"BEACON: Sat=0x00000001 Interval=10 s Timestamp=500 ms\r\n".to_vec());
    assert!(r.telemetry.is_none());
    assert_eq!(s, before);
}

#[test]
fn beacon_report_reads_only_the_received_bytes() {
    let packet = [0x01u8, 0xCD, 0xAB, 0x34, 0x12, 0x2C, 0x01, 0x87, 0xD6, 0x12, 0x00, 0x00];
    let mut s = StationState::new(0);
    let r = handle_rx(&mut s, &packet, 12, 0);
    assert_eq!(
        r.text,
        b"BEACON: Sat=0x1234ABCD Interval=300 s Timestamp=1234567 ms\r\n".to_vec()
    );
}

#[test]
fn high_nibble_of_kind_is_ignored() {
    let packet = [0xF1u8, 0x01, 0x00, 0x00, 0x00, 0x0A, 0x00, 0xF4, 0x01, 0x00, 0x00, 0x00];
    let mut s = StationState::new(0);
    let r = handle_rx(&mut s, &packet, 12, 0);
    assert_eq!(r.text, b"BEACON: Sat=0x00000001 Interval=10 s Timestamp=500 ms\r\n".to_vec());
}

#[test]
fn short_frames_are_ignored() {
    let buf = rx_buffer(&[0x01, 0, 0]);
    let mut s = StationState::new(0);
    assert_eq!(decode_station_frame(&buf, 11), StationFrame::Ignored);
    let r = handle_rx(&mut s, &buf, 11, 0);
    assert!(r.text.is_empty());
    let buf = rx_buffer(&[0x04]);
    assert_eq!(decode_station_frame(&buf, 13), StationFrame::Ignored);
    let buf = rx_buffer(&[0x05]);
    assert_eq!(decode_station_frame(&buf, 37), StationFrame::Ignored);
    let buf = rx_buffer(&[0x02]);
    assert_eq!(decode_station_frame(&buf, 100), StationFrame::Ignored);
}

#[test]
fn received_ack_renews_the_wait() {
    let ack = command_ack(GROUND_STATION_ADDR, 0x03, CommandResultCode::Received).to_bytes();
    let buf = rx_buffer(&ack);
    let mut s = waiting_for(0x03, 1000);
    let r = handle_rx(&mut s, &buf, ack.len(), 2500);
    assert_eq!(r.text, b"ACK: cmd=0x03 result=RECEIVED\r\n".to_vec());
    assert!(s.waiting_for_ack);
    assert_eq!(s.last_command_time, 2500);
}

#[test]
fn final_ack_ends_the_wait() {
    let ack = command_ack(GROUND_STATION_ADDR, 0x03, CommandResultCode::Error).to_bytes();
    let buf = rx_buffer(&ack);
    let mut s = waiting_for(0x03, 1000);
    let r = handle_rx(&mut s, &buf, ack.len(), 2500);
    assert_eq!(r.text, b"ACK: cmd=0x03 result=ERROR\r\n".to_vec());
    assert!(!s.waiting_for_ack);
    assert!(!s.waiting_for_telemetry);
    assert_eq!(s.last_command_time, 1000);
}

#[test]
fn successful_telemetry_request_opens_telemetry_wait() {
    let ack = command_ack(GROUND_STATION_ADDR, 0x01, CommandResultCode::Success).to_bytes();
    let buf = rx_buffer(&ack);
    let mut s = waiting_for(0x01, 1000);
    let r = handle_rx(&mut s, &buf, ack.len(), 2000);
    assert_eq!(
        r.text,
        b"ACK: cmd=0x01 result=SUCCESS\r\nWaiting for telemetry...\r\n".to_vec()
    );
    assert!(!s.waiting_for_ack);
    assert!(s.waiting_for_telemetry);
    assert_eq!(s.last_command_time, 2000);
}

#[test]
fn ack_of_other_command_changes_nothing() {
    let ack = command_ack(GROUND_STATION_ADDR, 0x02, CommandResultCode::Success).to_bytes();
    let buf = rx_buffer(&ack);
    let mut s = waiting_for(0x01, 1000);
    let before = s;
    let r = handle_rx(&mut s, &buf, ack.len(), 2000);
    assert_eq!(r.text, b"ACK: cmd=0x02 result=SUCCESS\r\n".to_vec());
    assert_eq!(s, before);
}

#[test]
fn unknown_result_printed_in_hex() {
    let mut ack = command_ack(GROUND_STATION_ADDR, 0x01, CommandResultCode::Success).to_bytes();
    ack[13] = 0x7C;
    let buf = rx_buffer(&ack);
    let mut s = waiting_for(0x01, 0);
    let r = handle_rx(&mut s, &buf, ack.len(), 10);
    assert_eq!(r.text, b"ACK: cmd=0x01 result=0x7C\r\n".to_vec());
    assert!(!s.waiting_for_ack);
    assert!(!s.waiting_for_telemetry);
}

fn sample_telemetry() -> SatTelemetryFrame {
    telemetry_frame(
        GROUND_STATION_ADDR,
        25.5f32.to_bits(),
        (-3.5f32).to_bits(),
        4.2f32.to_bits(),
        128.0f32.to_bits(),
        28.0f32.to_bits(),
        65_432,
    )
}

#[test]
fn telemetry_ends_the_telemetry_wait() {
    let t = sample_telemetry();
    let bytes = t.to_bytes();
    let buf = rx_buffer(&bytes);
    let mut s = StationState::new(0);
    s.waiting_for_telemetry = true;
    let r = handle_rx(&mut s, &buf, bytes.len(), 50);
    assert!(r.text.is_empty());
    assert_eq!(r.telemetry, Some(t));
    assert!(!s.waiting_for_telemetry);
}

#[test]
fn telemetry_text() {
    let mut t = sample_telemetry();
    t.relay_mode = 1;
    t.storage_count = 12;
    let text = format_telemetry(&t, [(25, 5), (-3, 5), (4, 2), (128, 0), (28, 0)]);
    let expected: &[u8] = b"TELEMETRY:\r\n Temp1: 25.5\r\n Temp2: -3.5\r\n Voltage: 4.2 V\r\n Heater: 128.0/255\r\n Setpoint: 28.0 C\r\n Uptime: 65 s\r\n Relay: ON\r\n Storage: 12\r\n";
    assert_eq!(text, expected.to_vec());
    t.uptime = 1_234_567;
    let text = format_telemetry(&t, [(0, 0); 5]);
    assert!(text.windows(17).any(|w| w == b" Uptime: 1234 s\r\n"));
    t.relay_mode = 0;
    let text = format_telemetry(&t, [(0, 0); 5]);
    assert!(text.windows(12).any(|w| w == b" Relay: OFF\r"));
}

#[test]
fn command_travels_from_ground_to_satellite() {
    let packet = ground_command_packet(0x05, &[0x1D, 0x01]);
    let buf = rx_buffer(&packet);
    let cmd = parse_ground_command(&buf, packet.len()).unwrap();
    assert_eq!(cmd.dest_addr, 1);
    assert_eq!(cmd.src_addr, GROUND_STATION_ADDR);
    assert_eq!(cmd.code, 0x05);
    assert_eq!(cmd.params, vec![0x1D, 0x01]);
}

#[test]
fn ack_travels_from_satellite_to_ground() {
    let ack = command_ack(GROUND_STATION_ADDR, 0x04, CommandResultCode::Success).to_bytes();
    let buf = rx_buffer(&ack);
    assert_eq!(
        decode_station_frame(&buf, ack.len()),
        StationFrame::CommandAck { command_code: 0x04, result_code: 0x00 }
    );
}

#[test]
fn telemetry_travels_from_satellite_to_ground() {
    let t = sample_telemetry();
    let bytes = t.to_bytes();
    let buf = rx_buffer(&bytes);
    assert_eq!(decode_station_frame(&buf, bytes.len()), StationFrame::Telemetry(t));
}

#[test]
fn beacon_travels_from_satellite_to_ground() {
    let mut sat = SatelliteState::new(0);
    let beacon = sat.beacon(12_345);
    let bytes = beacon.to_bytes();
    let buf = rx_buffer(&bytes);
    assert_eq!(decode_station_frame(&buf, bytes.len()), StationFrame::Beacon(beacon));
    let mut s = StationState::new(0);
    let r = handle_rx(&mut s, &bytes, bytes.len(), 0);
    assert_eq!(r.text, b"BEACON: Sat=0x00000001 Interval=10 s Timestamp=12345 ms\r\n".to_vec());
}

#[test]
fn send_outcome() {
    let mut s = StationState::new(0);
    assert!(s.command_send_result(0x04, 300, true).is_empty());
    assert!(s.waiting_for_ack);
    assert_eq!(s.last_command_code, 0x04);
    assert_eq!(s.last_command_time, 300);
    let before = s;
    assert_eq!(s.command_send_result(0x05, 400, false), b"Failed to send command\r\n".to_vec());
    assert_eq!(s, before);
}
