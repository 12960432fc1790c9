use sputnik::codec::{push_i16_le, push_u16_le, push_u32_le, read_i16_le, read_u16_le, read_u32_le};
use sputnik::protocol::{
    BeaconFrame, CommandAckFrame, CommandResultCode, DataDumpFrame, FrameHeader, FrameType,
    GroundCommandCode, GroundCommandFrame, ProtocolId, SatTelemetryFrame, StoredDataRecord,
    BEACON_LEN, BROADCAST_ADDR, COMMAND_ACK_LEN, GROUND_COMMAND_LEN, GROUND_STATION_ADDR,
    HEADER_LEN, SATELLITE_ID, SAT_TELEMETRY_LEN, STORED_DATA_CAPACITY,
};

#[test]
fn addresses_have_their_values() {
    assert_eq!(SATELLITE_ID, 0x0000_0001);
    assert_eq!(BROADCAST_ADDR, 0xFFFF_FFFF);
    assert_eq!(GROUND_STATION_ADDR, 0x0000_0010);
}

#[test]
fn frame_type_codes() {
    let all = [
        (FrameType::Beacon, 0x01),
        (FrameType::Data, 0x02),
        (FrameType::Command, 0x03),
        (FrameType::CommandAck, 0x04),
        (FrameType::SatTelemetry, 0x05),
        (FrameType::DataDump, 0x06),
        (FrameType::GroundCommand, 0x07),
        (FrameType::Transport, 0x08),
    ];
    for (t, c) in all {
        assert_eq!(t.code(), c);
        assert_eq!(FrameType::from_code(c), Some(t));
    }
    assert_eq!(FrameType::from_code(0x00), None);
    assert_eq!(FrameType::from_code(0x09), None);
    assert_eq!(FrameType::from_code(0xFF), None);
}

#[test]
fn protocol_id_codes() {
    let all = [
        (ProtocolId::Raw, 0x00),
        (ProtocolId::CmdControl, 0x01),
        (ProtocolId::StoreForward, 0x03),
        (ProtocolId::SatTelemetry, 0x04),
        (ProtocolId::TimeSync, 0x05),
        (ProtocolId::Fragmentation, 0x09),
    ];
    for (p, c) in all {
        assert_eq!(p.code(), c);
        assert_eq!(ProtocolId::from_code(c), Some(p));
    }
    assert_eq!(ProtocolId::from_code(0x02), None);
    assert_eq!(ProtocolId::from_code(0x06), None);
}

#[test]
fn ground_command_codes() {
    let all = [
        (GroundCommandCode::GetTelemetry, 0x01),
        (GroundCommandCode::Reset, 0x02),
        (GroundCommandCode::SetBeaconInterval, 0x03),
        (GroundCommandCode::DeployAntenna, 0x04),
        (GroundCommandCode::SetTemperature, 0x05),
        (GroundCommandCode::SetRelayMode, 0x06),
    ];
    for (g, c) in all {
        assert_eq!(g.code(), c);
        assert_eq!(GroundCommandCode::from_code(c), Some(g));
    }
    assert_eq!(GroundCommandCode::from_code(0x00), None);
    assert_eq!(GroundCommandCode::from_code(0x07), None);
}

#[test]
fn command_result_codes() {
    assert_eq!(CommandResultCode::Success.code(), 0x00);
    assert_eq!(CommandResultCode::Error.code(), 0x01);
    assert_eq!(CommandResultCode::Received.code(), 0xFE);
    assert_eq!(CommandResultCode::from_code(0x00), Some(CommandResultCode::Success));
    assert_eq!(CommandResultCode::from_code(0x01), Some(CommandResultCode::Error));
    assert_eq!(CommandResultCode::from_code(0xFE), Some(CommandResultCode::Received));
    assert_eq!(CommandResultCode::from_code(0x02), None);
    assert_eq!(CommandResultCode::from_code(0xFF), None);
}

#[test]
fn little_endian_fields() {
    let mut out = Vec::new();
    push_u16_le(&mut out, 0x1234);
    push_u32_le(&mut out, 0xDEAD_BEEF);
    push_i16_le(&mut out, -2);
    push_i16_le(&mut out, 300);
    assert_eq!(out, vec![0x34, 0x12, 0xEF, 0xBE, 0xAD, 0xDE, 0xFE, 0xFF, 0x2C, 0x01]);
    assert_eq!(read_u16_le(&out, 0), 0x1234);
    assert_eq!(read_u32_le(&out, 2), 0xDEAD_BEEF);
    assert_eq!(read_i16_le(&out, 6), -2);
    assert_eq!(read_i16_le(&out, 8), 300);
    let extremes = [0x00u8, 0x80, 0xFF, 0x7F];
    assert_eq!(read_i16_le(&extremes, 0), i16::MIN);
    assert_eq!(read_i16_le(&extremes, 2), i16::MAX);
}

fn sample_header() -> FrameHeader {
    FrameHeader {
        frame_type: 0x04,
        dest_addr: 0x0000_0010,
        src_addr: 0x0102_0304,
        protocol_id: 0x01,
        flags: 0x00,
        data_length: 0x02,
    }
}

#[test]
fn header_layout() {
    let h = sample_header();
    let mut out = Vec::new();
    h.write(&mut out);
    assert_eq!(out.len(), HEADER_LEN);
    assert_eq!(out, vec![0x04, 0x10, 0, 0, 0, 0x04, 0x03, 0x02, 0x01, 0x01, 0x00, 0x02]);
    assert_eq!(FrameHeader::read(&out), h);
}

#[test]
fn beacon_layout() {
    let b = BeaconFrame {
        frame_control: 0x01,
        satellite_id: SATELLITE_ID,
        beacon_interval: 10,
        timestamp: 0x0001_E240,
        reserved: 0,
    };
    let bytes = b.to_bytes();
    assert_eq!(bytes.len(), BEACON_LEN);
    assert_eq!(bytes, vec![0x01, 0x01, 0, 0, 0, 0x0A, 0x00, 0x40, 0xE2, 0x01, 0x00, 0x00]);
    assert_eq!(BeaconFrame::read(&bytes), b);
}

#[test]
fn ground_command_layout() {
    let f = GroundCommandFrame {
        header: FrameHeader {
            frame_type: 0x07,
            dest_addr: SATELLITE_ID,
            src_addr: GROUND_STATION_ADDR,
            protocol_id: 0x01,
            flags: 0,
            data_length: 1,
        },
        command_code: 0x01,
    };
    let mut out = Vec::new();
    f.write(&mut out);
    assert_eq!(out.len(), GROUND_COMMAND_LEN);
    assert_eq!(out, vec![0x07, 0x01, 0, 0, 0, 0x10, 0, 0, 0, 0x01, 0x00, 0x01, 0x01]);
    assert_eq!(GroundCommandFrame::read(&out), f);
}

#[test]
fn command_ack_layout() {
    let f = CommandAckFrame { header: sample_header(), command_code: 0x05, result_code: 0xFE };
    let bytes = f.to_bytes();
    assert_eq!(bytes.len(), COMMAND_ACK_LEN);
    assert_eq!(&bytes[..12], &[0x04, 0x10, 0, 0, 0, 0x04, 0x03, 0x02, 0x01, 0x01, 0x00, 0x02]);
    assert_eq!(&bytes[12..], &[0x05, 0xFE]);
    assert_eq!(CommandAckFrame::read(&bytes), f);
}

#[test]
fn telemetry_layout() {
    let f = SatTelemetryFrame {
        header: FrameHeader {
            frame_type: 0x05,
            dest_addr: GROUND_STATION_ADDR,
            src_addr: SATELLITE_ID,
            protocol_id: 0x04,
            flags: 0,
            data_length: 26,
        },
        temp_batt1: 25.5f32.to_bits(),
        temp_batt2: (-3.25f32).to_bits(),
        battery_voltage: 4.2f32.to_bits(),
        heater_power: 0.0f32.to_bits(),
        setpoint: 28.0f32.to_bits(),
        uptime: 123_456,
        relay_mode: 0,
        storage_count: 3,
    };
    let bytes = f.to_bytes();
    assert_eq!(bytes.len(), SAT_TELEMETRY_LEN);
    assert_eq!(&bytes[12..16], &25.5f32.to_le_bytes());
    assert_eq!(&bytes[16..20], &(-3.25f32).to_le_bytes());
    assert_eq!(&bytes[32..36], &123_456u32.to_le_bytes());
    assert_eq!(bytes[36], 0);
    assert_eq!(bytes[37], 3);
    assert_eq!(SatTelemetryFrame::read(&bytes), f);
}

#[test]
fn stored_record_defaults_to_zero() {
    let r = StoredDataRecord::default();
    assert_eq!(r.timestamp, 0);
    assert_eq!(r.rssi, 0);
    assert_eq!(r.snr, 0);
    assert_eq!(r.data_length, 0);
    assert_eq!(r.data.len(), STORED_DATA_CAPACITY);
    assert!(r.data.iter().all(|b| *b == 0));
    let dump = DataDumpFrame { header: sample_header(), record: r };
    assert_eq!(dump.record.data_length, 0);
}
