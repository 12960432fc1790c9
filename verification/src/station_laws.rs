//! What the ground station makes of acknowledgements, and the uptime line of
//! its telemetry text, stated case by case with the wire values spelled out.

use vstd::prelude::*;
use vstd::string::StringSliceAdditionalSpecFns;
use crate::ground::{
    command_packet, parse_station_frame, result_label, rx_in_bounds, telemetry_text, StationFrame,
    StationState,
};
use crate::layout_laws::{header_at, holds_u32, lemma_ground_command_layout};
use crate::protocol::{BeaconFrame, FrameHeader, GroundCommandFrame, SatTelemetryFrame};
use crate::text::{decimal, hex_u8_text, reading_text};

verus! {

/// An acknowledgement that does not answer the awaited command (none is
/// awaited, or it names another command) leaves the state as it was.
pub proof fn lemma_unawaited_ack(s: StationState, command_code: u8, result_code: u8, now_ms: u64)
    requires
        !s.waiting_for_ack || command_code != s.last_command_code,
    ensures
        s.after_frame(StationFrame::CommandAck { command_code, result_code }, now_ms) == s,
{
}

/// A "received" acknowledgement (0xFE) of the awaited command keeps the wait
/// for it open and restarts its clock at `now_ms`; nothing else changes.
pub proof fn lemma_received_ack(s: StationState, now_ms: u64)
    requires
        s.waiting_for_ack,
    ensures
        s.after_frame(
            StationFrame::CommandAck { command_code: s.last_command_code, result_code: 0xFE },
            now_ms,
        ) == (StationState { last_command_time: now_ms, ..s }),
{
}

/// Any final acknowledgement of the awaited command, that is one whose result
/// is not "received" (0xFE), success included, ends the wait for it. Success
/// (0) of a telemetry request (0x01) then opens the wait for telemetry, timed
/// from `now_ms`; every other outcome leaves the telemetry wait and the clock
/// as they were. The last command stays the same.
pub proof fn lemma_final_ack_ends_wait(s: StationState, result_code: u8, now_ms: u64)
    requires
        s.waiting_for_ack,
        result_code != 0xFE,
    ensures
        ({
            let t = s.after_frame(
                StationFrame::CommandAck { command_code: s.last_command_code, result_code },
                now_ms,
            );
            let opens = result_code == 0 && s.last_command_code == 1;
            &&& !t.waiting_for_ack
            &&& t.last_command_code == s.last_command_code
            &&& t.waiting_for_telemetry == (s.waiting_for_telemetry || opens)
            &&& t.last_command_time == if opens {
                now_ms
            } else {
                s.last_command_time
            }
        }),
{
}

/// The same, from the received bytes: a packet of at least fourteen bytes
/// whose kind (the low four bits of its first byte) is an acknowledgement
/// (4), naming the awaited command at byte 12 with a result other than
/// "received" at byte 13, ends the wait for the acknowledgement.
pub proof fn lemma_final_ack_packet_ends_wait(s: StationState, rx: Seq<u8>, len: nat, now_ms: u64)
    requires
        rx_in_bounds(rx, len),
        len >= 14,
        rx[0] % 16 == 4,
        rx[12] == s.last_command_code,
        rx[13] != 0xFE,
        s.waiting_for_ack,
    ensures
        !s.after_frame(parse_station_frame(rx, len), now_ms).waiting_for_ack,
{
    lemma_final_ack_ends_wait(s, rx[13], now_ms);
}

/// The uptime line of the telemetry text: " Uptime: ", the decimal digits of
/// the whole seconds of the uptime (the milliseconds divided by 1000, taken
/// as an unbounded number), and " s", followed by the relay and storage
/// lines.
pub proof fn lemma_uptime_line(f: SatTelemetryFrame, readings: Seq<(i32, i32)>)
    ensures
        exists|head: Seq<u8>|
            telemetry_text(f, readings) == head + " Uptime: ".spec_bytes() + decimal(
                (f.uptime / 1000) as nat,
            ) + " s\r\n".spec_bytes() + " Relay: ".spec_bytes() + (if f.relay_mode != 0 {
                "ON\r\n".spec_bytes()
            } else {
                "OFF\r\n".spec_bytes()
            }) + " Storage: ".spec_bytes() + decimal(f.storage_count as nat)
                + "\r\n".spec_bytes(),
{
    let head = "TELEMETRY:\r\n Temp1: ".spec_bytes() + reading_text(readings[0].0, readings[0].1)
        + "\r\n".spec_bytes() + " Temp2: ".spec_bytes() + reading_text(readings[1].0, readings[1].1)
        + "\r\n".spec_bytes() + " Voltage: ".spec_bytes() + reading_text(
        readings[2].0,
        readings[2].1,
    ) + " V\r\n".spec_bytes() + " Heater: ".spec_bytes() + reading_text(
        readings[3].0,
        readings[3].1,
    ) + "/255\r\n".spec_bytes() + " Setpoint: ".spec_bytes() + reading_text(
        readings[4].0,
        readings[4].1,
    ) + " C\r\n".spec_bytes();
    assert(telemetry_text(f, readings) == head + " Uptime: ".spec_bytes() + decimal(
        (f.uptime / 1000) as nat,
    ) + " s\r\n".spec_bytes() + " Relay: ".spec_bytes() + (if f.relay_mode != 0 {
        "ON\r\n".spec_bytes()
    } else {
        "OFF\r\n".spec_bytes()
    }) + " Storage: ".spec_bytes() + decimal(f.storage_count as nat) + "\r\n".spec_bytes());
}

/// The acknowledgement wait runs out once more than 3000 ms have passed since
/// the last command was sent or confirmed, the telemetry wait once more than
/// 8000 ms have.
pub proof fn lemma_timeout_thresholds(s: StationState, now_ms: u64)
    requires
        s.last_command_time <= now_ms,
    ensures
        s.ack_expired(now_ms) <==> (s.waiting_for_ack && now_ms - s.last_command_time > 3000),
        s.telemetry_expired(now_ms) <==> (s.waiting_for_telemetry && now_ms - s.last_command_time
            > 8000),
{
}

/// Which frame the station reads from a packet: by the low four bits of its
/// first byte, a beacon (1) of at least 12 bytes, an acknowledgement (4) of at
/// least 14 bytes whose command code is byte 12 and result byte 13, or
/// telemetry (5) of at least 38 bytes; anything else is ignored.
pub proof fn lemma_station_frame_kinds(s: Seq<u8>, len: nat)
    requires
        rx_in_bounds(s, len),
    ensures
        ({
            let f = parse_station_frame(s, len);
            let k = s[0] % 16;
            &&& (k == 1 && len >= 12) ==> f == StationFrame::Beacon(BeaconFrame::parse(s))
            &&& (k == 4 && len >= 14) ==> f == (StationFrame::CommandAck {
                command_code: s[12],
                result_code: s[13],
            })
            &&& (k == 5 && len >= 38) ==> f == StationFrame::Telemetry(SatTelemetryFrame::parse(s))
            &&& !((k == 1 && len >= 12) || (k == 4 && len >= 14) || (k == 5 && len >= 38)) ==> f
                == StationFrame::Ignored
        }),
{
}

/// The outcome labels of acknowledgements: 0xFE reads "RECEIVED", 0
/// "SUCCESS", 1 "ERROR", and any other byte is shown in hex.
pub proof fn lemma_result_labels(result: u8)
    ensures
        result_label(0xFE) == "RECEIVED\r\n".spec_bytes(),
        result_label(0) == "SUCCESS\r\n".spec_bytes(),
        result_label(1) == "ERROR\r\n".spec_bytes(),
        (result != 0 && result != 1 && result != 0xFE) ==> result_label(result) == "0x".spec_bytes()
            + hex_u8_text(result) + "\r\n".spec_bytes(),
{
}

/// The text of an acknowledgement names the command in hex and its outcome,
/// and announces the wait for telemetry exactly when a success (0) of an
/// awaited telemetry request (0x01) arrives.
pub proof fn lemma_ack_text(s: StationState, command_code: u8, result_code: u8)
    ensures
        s.frame_text(StationFrame::CommandAck { command_code, result_code }) == "ACK: cmd=0x".spec_bytes()
            + hex_u8_text(command_code) + " result=".spec_bytes() + result_label(result_code) + if s.waiting_for_ack
            && command_code == s.last_command_code && result_code == 0 && command_code == 1 {
            "Waiting for telemetry...\r\n".spec_bytes()
        } else {
            Seq::<u8>::empty()
        },
{
}

/// The packet that carries a command to the satellite: kind 7 (ground
/// command), the satellite's address 1 at 1..5, the station's address 0x10
/// at 5..9, protocol 1 (command and control), no flags, a data length that
/// counts the command byte and the parameters, the command code at 12, and
/// then the parameter bytes.
pub proof fn lemma_command_packet_bytes(code: u8, params: Seq<u8>)
    requires
        params.len() <= 115,
    ensures
        ({
            let p = command_packet(code, params);
            &&& p.len() == 13 + params.len()
            &&& p[0] == 7
            &&& holds_u32(p, 1, 1)
            &&& holds_u32(p, 5, 0x10)
            &&& p[9] == 1
            &&& p[10] == 0
            &&& p[11] == 1 + params.len()
            &&& p[12] == code
            &&& p.subrange(13, p.len() as int) == params
        }),
{
    let h = FrameHeader {
        frame_type: 7,
        dest_addr: 1,
        src_addr: 0x10,
        protocol_id: 1,
        flags: 0,
        data_length: (1 + params.len()) as u8,
    };
    let frame = GroundCommandFrame { header: h, command_code: code };
    lemma_ground_command_layout(frame);
    let w = frame.wire();
    let p = command_packet(code, params);
    assert(p == w + params);
    assert(header_at(w, 0, h));
    assert(forall|i: int| 0 <= i < 13 ==> p[i] == w[i]);
    assert(p.subrange(13, p.len() as int) =~= params);
}

} // verus!
