//! Where each field of each frame lies on the air, byte by byte, and which
//! value each enumeration carries there.

use vstd::prelude::*;
use crate::codec::{le_u16, le_u32};
use crate::protocol::{
    BeaconFrame, CommandAckFrame, CommandResultCode, FrameHeader, FrameType, GroundCommandCode,
    GroundCommandFrame, ProtocolId, SatTelemetryFrame,
};

verus! {

/// `v` is held little-endian in the two bytes of `s` at `i`.
pub open spec fn holds_u16(s: Seq<u8>, i: int, v: int) -> bool {
    &&& 0 <= i && i + 2 <= s.len()
    &&& s[i] == v % 256
    &&& s[i + 1] == (v / 256) % 256
}

/// `v` is held little-endian in the four bytes of `s` at `i`.
pub open spec fn holds_u32(s: Seq<u8>, i: int, v: int) -> bool {
    &&& 0 <= i && i + 4 <= s.len()
    &&& s[i] == v % 256
    &&& s[i + 1] == (v / 256) % 256
    &&& s[i + 2] == (v / 65536) % 256
    &&& s[i + 3] == (v / 16777216) % 256
}

/// The number held little-endian in the two bytes of `s` at `i`.
pub open spec fn value_u16(s: Seq<u8>, i: int) -> int {
    s[i] + 256 * s[i + 1]
}

/// The number held little-endian in the four bytes of `s` at `i`.
pub open spec fn value_u32(s: Seq<u8>, i: int) -> int {
    s[i] + 256 * s[i + 1] + 65536 * s[i + 2] + 16777216 * s[i + 3]
}

/// Every field of a header at its offset from `i`.
pub open spec fn header_at(s: Seq<u8>, i: int, h: FrameHeader) -> bool {
    &&& 0 <= i && i + 12 <= s.len()
    &&& s[i] == h.frame_type
    &&& holds_u32(s, i + 1, h.dest_addr as int)
    &&& holds_u32(s, i + 5, h.src_addr as int)
    &&& s[i + 9] == h.protocol_id
    &&& s[i + 10] == h.flags
    &&& s[i + 11] == h.data_length
}

/// The header read from the first twelve bytes of `s`, field by field.
pub open spec fn header_read_from(s: Seq<u8>, h: FrameHeader) -> bool {
    &&& h.frame_type == s[0]
    &&& h.dest_addr == value_u32(s, 1)
    &&& h.src_addr == value_u32(s, 5)
    &&& h.protocol_id == s[9]
    &&& h.flags == s[10]
    &&& h.data_length == s[11]
}

proof fn lemma_u16_bytes(s: Seq<u8>, i: int, v: u16)
    requires
        0 <= i,
        i + 2 <= s.len(),
        s.subrange(i, i + 2) == le_u16(v),
    ensures
        holds_u16(s, i, v as int),
{
    assert(s[i] == s.subrange(i, i + 2)[0]);
    assert(s[i + 1] == s.subrange(i, i + 2)[1]);
}

proof fn lemma_u32_bytes(s: Seq<u8>, i: int, v: u32)
    requires
        0 <= i,
        i + 4 <= s.len(),
        s.subrange(i, i + 4) == le_u32(v),
    ensures
        holds_u32(s, i, v as int),
{
    assert(s[i] == s.subrange(i, i + 4)[0]);
    assert(s[i + 1] == s.subrange(i, i + 4)[1]);
    assert(s[i + 2] == s.subrange(i, i + 4)[2]);
    assert(s[i + 3] == s.subrange(i, i + 4)[3]);
}

/// A header's bytes: type at 0, destination at 1..5, source at 5..9,
/// protocol at 9, flags at 10, data length at 11, and nothing more.
pub proof fn lemma_header_layout(h: FrameHeader, rest: Seq<u8>)
    ensures
        h.wire().len() == 12,
        header_at(h.wire() + rest, 0, h),
{
    let s = h.wire() + rest;
    assert(s.subrange(1, 5) =~= le_u32(h.dest_addr));
    assert(s.subrange(5, 9) =~= le_u32(h.src_addr));
    lemma_u32_bytes(s, 1, h.dest_addr);
    lemma_u32_bytes(s, 5, h.src_addr);
}

/// A header is read from the same offsets.
pub proof fn lemma_header_read(s: Seq<u8>)
    requires
        s.len() >= 12,
    ensures
        header_read_from(s, FrameHeader::parse(s)),
{
}

/// A beacon's bytes: frame control at 0, satellite id at 1..5, interval at
/// 5..7, timestamp at 7..11, reserved byte at 11.
pub proof fn lemma_beacon_layout(b: BeaconFrame)
    ensures
        ({
            let w = b.wire();
            &&& w.len() == 12
            &&& w[0] == b.frame_control
            &&& holds_u32(w, 1, b.satellite_id as int)
            &&& holds_u16(w, 5, b.beacon_interval as int)
            &&& holds_u32(w, 7, b.timestamp as int)
            &&& w[11] == b.reserved
        }),
{
    let w = b.wire();
    assert(w.subrange(1, 5) =~= le_u32(b.satellite_id));
    assert(w.subrange(5, 7) =~= le_u16(b.beacon_interval));
    assert(w.subrange(7, 11) =~= le_u32(b.timestamp));
    lemma_u32_bytes(w, 1, b.satellite_id);
    lemma_u16_bytes(w, 5, b.beacon_interval);
    lemma_u32_bytes(w, 7, b.timestamp);
}

/// A beacon is read from the same offsets.
pub proof fn lemma_beacon_read(s: Seq<u8>)
    requires
        s.len() >= 12,
    ensures
        ({
            let b = BeaconFrame::parse(s);
            &&& b.frame_control == s[0]
            &&& b.satellite_id == value_u32(s, 1)
            &&& b.beacon_interval == value_u16(s, 5)
            &&& b.timestamp == value_u32(s, 7)
            &&& b.reserved == s[11]
        }),
{
}

/// A ground command's bytes: the header, then the command code at 12.
pub proof fn lemma_ground_command_layout(f: GroundCommandFrame)
    ensures
        f.wire().len() == 13,
        header_at(f.wire(), 0, f.header),
        f.wire()[12] == f.command_code,
{
    lemma_header_layout(f.header, seq![f.command_code]);
}

/// A ground command is read from the same offsets.
pub proof fn lemma_ground_command_read(s: Seq<u8>)
    requires
        s.len() >= 13,
    ensures
        header_read_from(s, GroundCommandFrame::parse(s).header),
        GroundCommandFrame::parse(s).command_code == s[12],
{
}

/// An acknowledgement's bytes: the header, then the command code at 12 and
/// the result code at 13.
pub proof fn lemma_command_ack_layout(f: CommandAckFrame)
    ensures
        f.wire().len() == 14,
        header_at(f.wire(), 0, f.header),
        f.wire()[12] == f.command_code,
        f.wire()[13] == f.result_code,
{
    lemma_header_layout(f.header, seq![f.command_code, f.result_code]);
}

/// An acknowledgement is read from the same offsets.
pub proof fn lemma_command_ack_read(s: Seq<u8>)
    requires
        s.len() >= 14,
    ensures
        header_read_from(s, CommandAckFrame::parse(s).header),
        CommandAckFrame::parse(s).command_code == s[12],
        CommandAckFrame::parse(s).result_code == s[13],
{
}

/// A telemetry frame's bytes: the header, the readings in the order battery 1
/// temperature (12..16), battery 2 temperature (16..20), battery voltage
/// (20..24), heater power (24..28), setpoint (28..32), then the uptime
/// (32..36), the relay mode at 36 and the storage count at 37.
pub proof fn lemma_sat_telemetry_layout(f: SatTelemetryFrame)
    ensures
        ({
            let w = f.wire();
            &&& w.len() == 38
            &&& header_at(w, 0, f.header)
            &&& holds_u32(w, 12, f.temp_batt1 as int)
            &&& holds_u32(w, 16, f.temp_batt2 as int)
            &&& holds_u32(w, 20, f.battery_voltage as int)
            &&& holds_u32(w, 24, f.heater_power as int)
            &&& holds_u32(w, 28, f.setpoint as int)
            &&& holds_u32(w, 32, f.uptime as int)
            &&& w[36] == f.relay_mode
            &&& w[37] == f.storage_count
        }),
{
    let w = f.wire();
    let tail = w.subrange(12, w.len() as int);
    assert(w =~= f.header.wire() + tail);
    lemma_header_layout(f.header, tail);
    assert(w.subrange(12, 16) =~= le_u32(f.temp_batt1));
    assert(w.subrange(16, 20) =~= le_u32(f.temp_batt2));
    assert(w.subrange(20, 24) =~= le_u32(f.battery_voltage));
    assert(w.subrange(24, 28) =~= le_u32(f.heater_power));
    assert(w.subrange(28, 32) =~= le_u32(f.setpoint));
    assert(w.subrange(32, 36) =~= le_u32(f.uptime));
    lemma_u32_bytes(w, 12, f.temp_batt1);
    lemma_u32_bytes(w, 16, f.temp_batt2);
    lemma_u32_bytes(w, 20, f.battery_voltage);
    lemma_u32_bytes(w, 24, f.heater_power);
    lemma_u32_bytes(w, 28, f.setpoint);
    lemma_u32_bytes(w, 32, f.uptime);
}

/// A telemetry frame is read from the same offsets.
pub proof fn lemma_sat_telemetry_read(s: Seq<u8>)
    requires
        s.len() >= 38,
    ensures
        ({
            let f = SatTelemetryFrame::parse(s);
            &&& header_read_from(s, f.header)
            &&& f.temp_batt1 == value_u32(s, 12)
            &&& f.temp_batt2 == value_u32(s, 16)
            &&& f.battery_voltage == value_u32(s, 20)
            &&& f.heater_power == value_u32(s, 24)
            &&& f.setpoint == value_u32(s, 28)
            &&& f.uptime == value_u32(s, 32)
            &&& f.relay_mode == s[36]
            &&& f.storage_count == s[37]
        }),
{
}

/// The wire values of the frame kinds.
pub proof fn lemma_frame_type_values()
    ensures
        FrameType::Beacon.spec_code() == 1,
        FrameType::Data.spec_code() == 2,
        FrameType::Command.spec_code() == 3,
        FrameType::CommandAck.spec_code() == 4,
        FrameType::SatTelemetry.spec_code() == 5,
        FrameType::DataDump.spec_code() == 6,
        FrameType::GroundCommand.spec_code() == 7,
        FrameType::Transport.spec_code() == 8,
{
}

/// The wire values of the protocols.
pub proof fn lemma_protocol_id_values()
    ensures
        ProtocolId::Raw.spec_code() == 0,
        ProtocolId::CmdControl.spec_code() == 1,
        ProtocolId::StoreForward.spec_code() == 3,
        ProtocolId::SatTelemetry.spec_code() == 4,
        ProtocolId::TimeSync.spec_code() == 5,
        ProtocolId::Fragmentation.spec_code() == 9,
{
}

/// The wire values of the ground commands.
pub proof fn lemma_ground_command_values()
    ensures
        GroundCommandCode::GetTelemetry.spec_code() == 1,
        GroundCommandCode::Reset.spec_code() == 2,
        GroundCommandCode::SetBeaconInterval.spec_code() == 3,
        GroundCommandCode::DeployAntenna.spec_code() == 4,
        GroundCommandCode::SetTemperature.spec_code() == 5,
        GroundCommandCode::SetRelayMode.spec_code() == 6,
{
}

/// The wire values of the command outcomes.
pub proof fn lemma_command_result_values()
    ensures
        CommandResultCode::Success.spec_code() == 0,
        CommandResultCode::Error.spec_code() == 1,
        CommandResultCode::Received.spec_code() == 0xFE,
{
}

} // verus!
