//! What one side of the link sends, the other side reads, and how the ground
//! station's waits behave.

use vstd::prelude::*;
use crate::ground::{
    command_packet, parse_station_frame, rx_in_bounds, telemetry_text, StationFrame, StationState,
    ACK_TIMEOUT_MS, MAX_COMMAND_PARAMS, TELEMETRY_TIMEOUT_MS,
};
use crate::protocol::{
    lemma_beacon_roundtrip, BeaconFrame, BEACON_LEN, lemma_command_ack_roundtrip, lemma_ground_command_roundtrip, lemma_sat_telemetry_roundtrip,
    CommandResultCode, FrameHeader, FrameType, GroundCommandCode, GroundCommandFrame,
    ProtocolId, SatTelemetryFrame, COMMAND_ACK_LEN, GROUND_COMMAND_LEN, GROUND_STATION_ADDR,
    SATELLITE_ID, SAT_TELEMETRY_LEN,
};
use crate::satellite::{accepts, ack_for, received_command};

verus! {

/// A command that the ground station sends reaches the satellite whole: a
/// packet received with the command's bytes at its start and the command's
/// length is read as that command, from the ground station, addressed to the
/// satellite, and the satellite accepts it.
pub proof fn lemma_command_reaches_satellite(code: u8, params: Seq<u8>, rx: Seq<u8>, len: nat)
    requires
        params.len() <= MAX_COMMAND_PARAMS,
        len == command_packet(code, params).len(),
        len <= rx.len(),
        rx.subrange(0, len as int) == command_packet(code, params),
    ensures
        received_command(rx, len) == Some((SATELLITE_ID, GROUND_STATION_ADDR, code, params)),
        accepts(SATELLITE_ID),
{
    let f = GroundCommandFrame {
        header: FrameHeader {
            frame_type: FrameType::GroundCommand.spec_code(),
            dest_addr: SATELLITE_ID,
            src_addr: GROUND_STATION_ADDR,
            protocol_id: ProtocolId::CmdControl.spec_code(),
            flags: 0,
            data_length: (1 + params.len()) as u8,
        },
        command_code: code,
    };
    lemma_ground_command_roundtrip(f, params);
    let rest = rx.subrange(len as int, rx.len() as int);
    assert(rx =~= rx.subrange(0, len as int) + rest);
    assert(command_packet(code, params) == f.wire() + params);
    assert(rx =~= f.wire() + (params + rest));
    lemma_ground_command_roundtrip(f, params + rest);
    assert(GroundCommandFrame::parse(rx) == f);
    assert(rx[0] == f.wire()[0]);
    assert(rx.subrange(GROUND_COMMAND_LEN as int, len as int) =~= params);
}

/// An acknowledgement that the satellite sends is read by the ground station
/// as the acknowledgement of the same command with the same outcome.
pub proof fn lemma_ack_reaches_ground(
    dest: u32,
    code: u8,
    result: CommandResultCode,
    rx: Seq<u8>,
    len: nat,
)
    requires
        COMMAND_ACK_LEN <= len <= rx.len(),
        rx.subrange(0, COMMAND_ACK_LEN as int) == ack_for(dest, code, result).wire(),
    ensures
        rx_in_bounds(rx, len),
        parse_station_frame(rx, len) == (StationFrame::CommandAck {
            command_code: code,
            result_code: result.spec_code(),
        }),
{
    let f = ack_for(dest, code, result);
    let rest = rx.subrange(COMMAND_ACK_LEN as int, rx.len() as int);
    assert(rx =~= f.wire() + rest);
    lemma_command_ack_roundtrip(f, rest);
    assert(rx[0] == f.wire()[0]);
}

/// Telemetry that the satellite sends is read by the ground station as the
/// same telemetry.
pub proof fn lemma_telemetry_reaches_ground(f: SatTelemetryFrame, rx: Seq<u8>, len: nat)
    requires
        f.header.frame_type == FrameType::SatTelemetry.spec_code(),
        SAT_TELEMETRY_LEN <= len <= rx.len(),
        rx.subrange(0, SAT_TELEMETRY_LEN as int) == f.wire(),
    ensures
        rx_in_bounds(rx, len),
        parse_station_frame(rx, len) == StationFrame::Telemetry(f),
{
    let rest = rx.subrange(SAT_TELEMETRY_LEN as int, rx.len() as int);
    assert(rx =~= f.wire() + rest);
    lemma_sat_telemetry_roundtrip(f, rest);
    assert(rx[0] == f.wire()[0]);
}

/// A beacon that the satellite sends is read by the ground station as the
/// same beacon.
pub proof fn lemma_beacon_reaches_ground(b: BeaconFrame, rx: Seq<u8>, len: nat)
    requires
        b.frame_control == FrameType::Beacon.spec_code(),
        BEACON_LEN <= len <= rx.len(),
        rx.subrange(0, BEACON_LEN as int) == b.wire(),
    ensures
        rx_in_bounds(rx, len),
        parse_station_frame(rx, len) == StationFrame::Beacon(b),
{
    let rest = rx.subrange(BEACON_LEN as int, rx.len() as int);
    assert(rx =~= b.wire() + rest);
    lemma_beacon_roundtrip(b, rest);
    assert(rx[0] == b.wire()[0]);
}

/// Only the low four bits of a packet's first byte choose its kind: with any
/// other high four bits the ground station prints the same text, ends in the
/// same state and prints the same telemetry.
pub proof fn lemma_high_nibble_ignored(
    s: StationState,
    rx: Seq<u8>,
    h: u8,
    len: nat,
    now_ms: u64,
    readings: Seq<(i32, i32)>,
)
    requires
        rx_in_bounds(rx, len),
        h < 16,
    ensures
        ({
            let rx2 = rx.update(0, (rx[0] % 16 + 16 * h) as u8);
            let f1 = parse_station_frame(rx, len);
            let f2 = parse_station_frame(rx2, len);
            &&& rx_in_bounds(rx2, len)
            &&& s.after_frame(f2, now_ms) == s.after_frame(f1, now_ms)
            &&& s.frame_text(f2) == s.frame_text(f1)
            &&& (f2 is Telemetry <==> f1 is Telemetry)
            &&& match (f1, f2) {
                (StationFrame::Telemetry(t1), StationFrame::Telemetry(t2)) => telemetry_text(
                    t2,
                    readings,
                ) == telemetry_text(t1, readings),
                _ => true,
            }
        }),
{
    let b0 = rx[0];
    let b2 = (b0 % 16 + 16 * h) as u8;
    assert(b2 % 16 == b0 % 16) by (nonlinear_arith)
        requires
            b2 == b0 % 16 + 16 * h,
            h < 16,
    ;
    let rx2 = rx.update(0, b2);
    assert(forall|i: int| 1 <= i < rx.len() ==> rx2[i] == rx[i]);
}

/// An acknowledgement of a command other than the one awaited changes
/// nothing at the ground station.
pub proof fn lemma_foreign_ack_ignored(s: StationState, command_code: u8, result_code: u8, now_ms: u64)
    requires
        command_code != s.last_command_code || !s.waiting_for_ack,
    ensures
        s.after_frame(StationFrame::CommandAck { command_code, result_code }, now_ms) == s,
{
}

/// The ground station starts waiting for telemetry only when a telemetry
/// request it awaited is acknowledged as carried out.
pub proof fn lemma_telemetry_wait_needs_request(s: StationState, f: StationFrame, now_ms: u64)
    requires
        !s.waiting_for_telemetry,
        s.after_frame(f, now_ms).waiting_for_telemetry,
    ensures
        s.waiting_for_ack,
        s.last_command_code == GroundCommandCode::GetTelemetry.spec_code(),
        f == (StationFrame::CommandAck {
            command_code: s.last_command_code,
            result_code: CommandResultCode::Success.spec_code(),
        }),
{
}

/// After the timeouts are looked at, no wait is older than its timeout.
pub proof fn lemma_waits_bounded_after_timeouts(s: StationState, now_ms: u64)
    requires
        s.last_command_time <= now_ms,
    ensures
        ({
            let mid = s.after_ack_timeout(now_ms);
            let end = if mid.telemetry_expired(now_ms) {
                StationState { waiting_for_telemetry: false, ..mid }
            } else {
                mid
            };
            &&& end.waiting_for_ack ==> now_ms - end.last_command_time <= ACK_TIMEOUT_MS
            &&& end.waiting_for_telemetry ==> now_ms - end.last_command_time
                <= TELEMETRY_TIMEOUT_MS
        }),
{
}

} // verus!
