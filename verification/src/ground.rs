//! The ground station's side of the link: commands it sends, what it makes of
//! received frames, and the text it writes to its serial console.

use vstd::prelude::*;
use vstd::string::StringSliceAdditionalSpecFns;
use crate::codec::push_bytes;
use crate::protocol::{
    BeaconFrame, FrameHeader, FrameType, GroundCommandCode, GroundCommandFrame,
    CommandResultCode, ProtocolId, SatTelemetryFrame, BEACON_LEN, COMMAND_ACK_LEN,
    GROUND_COMMAND_LEN, GROUND_STATION_ADDR, SATELLITE_ID, SAT_TELEMETRY_LEN,
};
use crate::text::{
    decimal, hex_u32_text, hex_u8_text, push_decimal, push_hex_u32, push_hex_u8,
    push_reading_text, push_str, push_u16_text, push_u32_text, reading_text,
};

verus! {

/// How long the station waits for an acknowledgement, in milliseconds.
pub const ACK_TIMEOUT_MS: u64 = 3000;

/// How long the station waits for telemetry, in milliseconds.
pub const TELEMETRY_TIMEOUT_MS: u64 = 8000;

/// Size of the station's transmit buffer.
pub const TX_BUFFER_LEN: usize = 128;

/// Most parameter bytes that fit in the transmit buffer after a command frame.
pub const MAX_COMMAND_PARAMS: usize = 115;

/// Where the station stands with the command it sent last.
#[derive(Debug, PartialEq, Eq, Clone, Copy, Structural)]
pub struct StationState {
    pub waiting_for_ack: bool,
    pub waiting_for_telemetry: bool,
    pub last_command_code: u8,
    /// When the last command was sent or last confirmed, in milliseconds.
    pub last_command_time: u64,
}

/// A received frame, as far as the station reads it.
#[derive(Debug, PartialEq, Eq, Clone, Copy, Structural)]
pub enum StationFrame {
    Beacon(BeaconFrame),
    CommandAck { command_code: u8, result_code: u8 },
    Telemetry(SatTelemetryFrame),
    /// Any other kind, or a frame too short for its kind.
    Ignored,
}

/// What handling a received frame produced.
pub struct RxReport {
    /// Console text for the frame.
    pub text: Vec<u8>,
    /// The telemetry received, to be printed once its readings are rendered.
    pub telemetry: Option<SatTelemetryFrame>,
}

/// Action chosen by a key typed on the console.
pub enum MenuAction {
    /// Send command `code` with parameter bytes `params`.
    Send { code: u8, params: Vec<u8> },
    /// Print the menu.
    ShowMenu,
    /// Nothing to do.
    Nothing,
}

/// Whether a packet of `len` bytes can lie at the start of `s`.
pub open spec fn rx_in_bounds(s: Seq<u8>, len: nat) -> bool {
    &&& s.len() >= 1
    &&& len <= s.len()
}

/// The frame that the station reads from a packet of `len` bytes held at the
/// start of `s`.
pub open spec fn parse_station_frame(s: Seq<u8>, len: nat) -> StationFrame {
    let kind = s[0] % 16;
    if kind == FrameType::Beacon.spec_code() && len >= BEACON_LEN {
        StationFrame::Beacon(BeaconFrame::parse(s))
    } else if kind == FrameType::CommandAck.spec_code() && len >= COMMAND_ACK_LEN {
        StationFrame::CommandAck { command_code: s[12], result_code: s[13] }
    } else if kind == FrameType::SatTelemetry.spec_code() && len >= SAT_TELEMETRY_LEN {
        StationFrame::Telemetry(SatTelemetryFrame::parse(s))
    } else {
        StationFrame::Ignored
    }
}

/// Console text for the outcome of an acknowledgement.
pub open spec fn result_label(result: u8) -> Seq<u8> {
    if result == CommandResultCode::Received.spec_code() {
        "RECEIVED\r\n".spec_bytes()
    } else if result == CommandResultCode::Success.spec_code() {
        "SUCCESS\r\n".spec_bytes()
    } else if result == CommandResultCode::Error.spec_code() {
        "ERROR\r\n".spec_bytes()
    } else {
        "0x".spec_bytes() + hex_u8_text(result) + "\r\n".spec_bytes()
    }
}

/// Console text for a beacon.
pub open spec fn beacon_text(b: BeaconFrame) -> Seq<u8> {
    "BEACON: Sat=0x".spec_bytes() + hex_u32_text(b.satellite_id) + " Interval=".spec_bytes()
        + decimal(b.beacon_interval as nat) + " s Timestamp=".spec_bytes() + decimal(
        b.timestamp as nat,
    ) + " ms\r\n".spec_bytes()
}

/// The bytes that carry command `code` with parameter bytes `params` to the
/// satellite.
pub open spec fn command_packet(code: u8, params: Seq<u8>) -> Seq<u8> {
    GroundCommandFrame {
        header: FrameHeader {
            frame_type: FrameType::GroundCommand.spec_code(),
            dest_addr: SATELLITE_ID,
            src_addr: GROUND_STATION_ADDR,
            protocol_id: ProtocolId::CmdControl.spec_code(),
            flags: 0,
            data_length: (1 + params.len()) as u8,
        },
        command_code: code,
    }.wire() + params
}

/// Console text for a telemetry frame, its five readings given as integer
/// part and tenths.
pub open spec fn telemetry_text(f: SatTelemetryFrame, readings: Seq<(i32, i32)>) -> Seq<u8> {
    "TELEMETRY:\r\n Temp1: ".spec_bytes() + reading_text(readings[0].0, readings[0].1)
        + "\r\n".spec_bytes() + " Temp2: ".spec_bytes() + reading_text(readings[1].0, readings[1].1)
        + "\r\n".spec_bytes() + " Voltage: ".spec_bytes() + reading_text(
        readings[2].0,
        readings[2].1,
    ) + " V\r\n".spec_bytes() + " Heater: ".spec_bytes() + reading_text(
        readings[3].0,
        readings[3].1,
    ) + "/255\r\n".spec_bytes() + " Setpoint: ".spec_bytes() + reading_text(
        readings[4].0,
        readings[4].1,
    ) + " C\r\n".spec_bytes() + " Uptime: ".spec_bytes() + decimal((f.uptime / 1000) as nat)
        + " s\r\n".spec_bytes() + " Relay: ".spec_bytes() + (if f.relay_mode != 0 {
        "ON\r\n".spec_bytes()
    } else {
        "OFF\r\n".spec_bytes()
    }) + " Storage: ".spec_bytes() + decimal(f.storage_count as nat) + "\r\n".spec_bytes()
}

impl StationState {
    /// Whether an acknowledgement of `command_code` with `result_code` opens
    /// the wait for telemetry.
    pub open spec fn starts_telemetry_wait(self, command_code: u8, result_code: u8) -> bool {
        &&& self.waiting_for_ack
        &&& command_code == self.last_command_code
        &&& result_code != CommandResultCode::Received.spec_code()
        &&& result_code == CommandResultCode::Success.spec_code()
        &&& self.last_command_code == GroundCommandCode::GetTelemetry.spec_code()
    }

    /// The state after receiving frame `f` at `now_ms`.
    pub open spec fn after_frame(self, f: StationFrame, now_ms: u64) -> StationState {
        match f {
            StationFrame::CommandAck { command_code, result_code } => {
                if self.waiting_for_ack && command_code == self.last_command_code {
                    if result_code == CommandResultCode::Received.spec_code() {
                        StationState { last_command_time: now_ms, ..self }
                    } else if self.starts_telemetry_wait(command_code, result_code) {
                        StationState {
                            waiting_for_ack: false,
                            waiting_for_telemetry: true,
                            last_command_time: now_ms,
                            ..self
                        }
                    } else {
                        StationState { waiting_for_ack: false, ..self }
                    }
                } else {
                    self
                }
            },
            StationFrame::Telemetry(_) => StationState { waiting_for_telemetry: false, ..self },
            _ => self,
        }
    }

    /// Console text for frame `f`, received in this state; telemetry is
    /// rendered apart, once its readings are split.
    pub open spec fn frame_text(self, f: StationFrame) -> Seq<u8> {
        match f {
            StationFrame::Beacon(b) => beacon_text(b),
            StationFrame::CommandAck { command_code, result_code } => "ACK: cmd=0x".spec_bytes()
                + hex_u8_text(command_code) + " result=".spec_bytes() + result_label(result_code)
                + if self.starts_telemetry_wait(command_code, result_code) {
                "Waiting for telemetry...\r\n".spec_bytes()
            } else {
                Seq::<u8>::empty()
            },
            _ => Seq::<u8>::empty(),
        }
    }

    /// Whether the acknowledgement wait has run out at `now_ms`.
    pub open spec fn ack_expired(self, now_ms: u64) -> bool {
        self.waiting_for_ack && now_ms - self.last_command_time > ACK_TIMEOUT_MS
    }

    /// The state after the acknowledgement timeout is looked at.
    pub open spec fn after_ack_timeout(self, now_ms: u64) -> StationState {
        if self.ack_expired(now_ms) {
            StationState { waiting_for_ack: false, waiting_for_telemetry: false, ..self }
        } else {
            self
        }
    }

    /// Whether the telemetry wait has run out at `now_ms`.
    pub open spec fn telemetry_expired(self, now_ms: u64) -> bool {
        self.waiting_for_telemetry && now_ms - self.last_command_time > TELEMETRY_TIMEOUT_MS
    }

    /// The state at start-up, `now_ms` being the start time.
    pub fn new(now_ms: u64) -> (r: StationState)
        ensures
            r == (StationState {
                waiting_for_ack: false,
                waiting_for_telemetry: false,
                last_command_code: 0,
                last_command_time: now_ms,
            }),
    {
        StationState {
            waiting_for_ack: false,
            waiting_for_telemetry: false,
            last_command_code: 0,
            last_command_time: now_ms,
        }
    }

    /// Ends the waits that have run out at `now_ms` and returns the console
    /// text that says so. An acknowledgement that does not come in time ends
    /// the wait for telemetry too.
    pub fn check_timeouts(&mut self, now_ms: u64) -> (r: Vec<u8>)
        requires
            old(self).last_command_time <= now_ms,
        ensures
            ({
                let mid = old(self).after_ack_timeout(now_ms);
                &&& *final(self) == if mid.telemetry_expired(now_ms) {
                    StationState { waiting_for_telemetry: false, ..mid }
                } else {
                    mid
                }
                &&& r@ == (if old(self).ack_expired(now_ms) {
                    "Timeout waiting for ACK\r\n".spec_bytes()
                } else {
                    Seq::<u8>::empty()
                }) + (if mid.telemetry_expired(now_ms) {
                    "Timeout waiting for telemetry\r\n".spec_bytes()
                } else {
                    Seq::<u8>::empty()
                })
            }),
    {
        let mut out: Vec<u8> = Vec::new();
        if self.waiting_for_ack && now_ms - self.last_command_time > ACK_TIMEOUT_MS {
            self.waiting_for_ack = false;
            self.waiting_for_telemetry = false;
            push_str(&mut out, "Timeout waiting for ACK\r\n");
        }
        if self.waiting_for_telemetry && now_ms - self.last_command_time > TELEMETRY_TIMEOUT_MS {
            self.waiting_for_telemetry = false;
            push_str(&mut out, "Timeout waiting for telemetry\r\n");
        }
        out
    }

    /// Records that command `code` went out at `now_ms`: the station now
    /// waits for its acknowledgement.
    pub fn command_sent(&mut self, code: u8, now_ms: u64)
        ensures
            *final(self) == (StationState {
                waiting_for_ack: true,
                last_command_code: code,
                last_command_time: now_ms,
                ..*old(self)
            }),
    {
        self.waiting_for_ack = true;
        self.last_command_code = code;
        self.last_command_time = now_ms;
    }

    /// Takes the outcome of sending command `code` at `now_ms`: a command
    /// that went out starts the wait for its acknowledgement; one that did
    /// not leaves the state as it was and is reported on the console.
    pub fn command_send_result(&mut self, code: u8, now_ms: u64, sent: bool) -> (r: Vec<u8>)
        ensures
            sent ==> *final(self) == (StationState {
                waiting_for_ack: true,
                last_command_code: code,
                last_command_time: now_ms,
                ..*old(self)
            }),
            sent ==> r@ == Seq::<u8>::empty(),
            !sent ==> *final(self) == *old(self),
            !sent ==> r@ == "Failed to send command\r\n".spec_bytes(),
    {
        let mut out: Vec<u8> = Vec::new();
        if sent {
            self.command_sent(code, now_ms);
        } else {
            push_str(&mut out, "Failed to send command\r\n");
        }
        out
    }
}

/// The packet that carries command `code` with parameter bytes `params` from
/// the station to the satellite: a command frame whose data length counts the
/// command byte and the parameters, then the parameters.
pub fn ground_command_packet(code: u8, params: &[u8]) -> (r: Vec<u8>)
    requires
        params.len() <= MAX_COMMAND_PARAMS,
    ensures
        r@ == command_packet(code, params@),
        r@.len() == GROUND_COMMAND_LEN + params.len(),
{
    let data_len: u8 = 1 + params.len() as u8;
    let frame = GroundCommandFrame {
        header: FrameHeader {
            frame_type: FrameType::GroundCommand.code(),
            dest_addr: SATELLITE_ID,
            src_addr: GROUND_STATION_ADDR,
            protocol_id: ProtocolId::CmdControl.code(),
            flags: 0,
            data_length: data_len,
        },
        command_code: code,
    };
    let mut out: Vec<u8> = Vec::new();
    frame.write(&mut out);
    push_bytes(&mut out, params);
    out
}

/// Console text echoed when command `code` goes out.
pub fn command_echo_text(code: u8) -> (r: Vec<u8>)
    ensures
        r@ == "TX cmd 0x".spec_bytes() + hex_u8_text(code) + "\r\n".spec_bytes(),
{
    let mut out: Vec<u8> = Vec::new();
    push_str(&mut out, "TX cmd 0x");
    push_hex_u8(&mut out, code);
    push_str(&mut out, "\r\n");
    out
}

/// Reads the frame held by a packet of `len` bytes at the start of `rx_buf`.
pub fn decode_station_frame(rx_buf: &[u8], len: usize) -> (r: StationFrame)
    requires
        rx_in_bounds(rx_buf@, len as nat),
    ensures
        r == parse_station_frame(rx_buf@, len as nat),
{
    let kind = rx_buf[0] % 16;
    if kind == FrameType::Beacon.code() && len >= BEACON_LEN {
        StationFrame::Beacon(BeaconFrame::read(rx_buf))
    } else if kind == FrameType::CommandAck.code() && len >= COMMAND_ACK_LEN {
        StationFrame::CommandAck { command_code: rx_buf[12], result_code: rx_buf[13] }
    } else if kind == FrameType::SatTelemetry.code() && len >= SAT_TELEMETRY_LEN {
        StationFrame::Telemetry(SatTelemetryFrame::read(rx_buf))
    } else {
        StationFrame::Ignored
    }
}

fn push_result_label(out: &mut Vec<u8>, result: u8)
    ensures
        final(out)@ == old(out)@ + result_label(result),
{
    if result == CommandResultCode::Received.code() {
        push_str(out, "RECEIVED\r\n");
    } else if result == CommandResultCode::Success.code() {
        push_str(out, "SUCCESS\r\n");
    } else if result == CommandResultCode::Error.code() {
        push_str(out, "ERROR\r\n");
    } else {
        let ghost start = out@;
        push_str(out, "0x");
        push_hex_u8(out, result);
        push_str(out, "\r\n");
        assert(out@ =~= start + result_label(result));
    }
}

/// Handles a packet of `len` bytes received at `now_ms` and held at the start
/// of `rx_buf`: updates the station's waits and returns the console text.
///
/// A beacon is reported; an acknowledgement is reported and, when it answers
/// the awaited command, either confirms its reception or ends the wait for it,
/// and a successful telemetry request then opens the wait for telemetry;
/// telemetry ends the wait for telemetry and is handed back to be printed.
pub fn handle_rx(state: &mut StationState, rx_buf: &[u8], len: usize, now_ms: u64) -> (r: RxReport)
    requires
        rx_in_bounds(rx_buf@, len as nat),
    ensures
        ({
            let f = parse_station_frame(rx_buf@, len as nat);
            &&& *final(state) == old(state).after_frame(f, now_ms)
            &&& r.text@ == old(state).frame_text(f)
            &&& r.telemetry == match f {
                StationFrame::Telemetry(t) => Some(t),
                _ => None::<SatTelemetryFrame>,
            }
        }),
{
    let frame = decode_station_frame(rx_buf, len);
    let mut out: Vec<u8> = Vec::new();
    match frame {
        StationFrame::Beacon(b) => {
            push_str(&mut out, "BEACON: Sat=0x");
            push_hex_u32(&mut out, b.satellite_id);
            push_str(&mut out, " Interval=");
            push_u16_text(&mut out, b.beacon_interval);
            push_str(&mut out, " s Timestamp=");
            push_u32_text(&mut out, b.timestamp);
            push_str(&mut out, " ms\r\n");
            assert(out@ =~= beacon_text(b));
            RxReport { text: out, telemetry: None }
        },
        StationFrame::CommandAck { command_code, result_code } => {
            let ghost before = *state;
            push_str(&mut out, "ACK: cmd=0x");
            push_hex_u8(&mut out, command_code);
            push_str(&mut out, " result=");
            push_result_label(&mut out, result_code);
            if state.waiting_for_ack && command_code == state.last_command_code {
                if result_code == CommandResultCode::Received.code() {
                    state.last_command_time = now_ms;
                } else {
                    state.waiting_for_ack = false;
                    if result_code == CommandResultCode::Success.code()
                        && state.last_command_code == GroundCommandCode::GetTelemetry.code() {
                        state.waiting_for_telemetry = true;
                        state.last_command_time = now_ms;
                        push_str(&mut out, "Waiting for telemetry...\r\n");
                    }
                }
            }
            assert(out@ =~= before.frame_text(frame));
            RxReport { text: out, telemetry: None }
        },
        StationFrame::Telemetry(t) => {
            state.waiting_for_telemetry = false;
            RxReport { text: out, telemetry: Some(t) }
        },
        StationFrame::Ignored => RxReport { text: out, telemetry: None },
    }
}

/// Console text for a telemetry frame; `readings` holds its five readings
/// (two battery temperatures, battery voltage, heater power, setpoint), each
/// split into integer part and tenths.
pub fn format_telemetry(f: &SatTelemetryFrame, readings: [(i32, i32); 5]) -> (r: Vec<u8>)
    ensures
        r@ == telemetry_text(*f, readings@),
{
    let mut out: Vec<u8> = Vec::new();
    push_str(&mut out, "TELEMETRY:\r\n Temp1: ");
    push_reading_text(&mut out, readings[0].0, readings[0].1);
    push_str(&mut out, "\r\n");
    push_str(&mut out, " Temp2: ");
    push_reading_text(&mut out, readings[1].0, readings[1].1);
    push_str(&mut out, "\r\n");
    push_str(&mut out, " Voltage: ");
    push_reading_text(&mut out, readings[2].0, readings[2].1);
    push_str(&mut out, " V\r\n");
    push_str(&mut out, " Heater: ");
    push_reading_text(&mut out, readings[3].0, readings[3].1);
    push_str(&mut out, "/255\r\n");
    push_str(&mut out, " Setpoint: ");
    push_reading_text(&mut out, readings[4].0, readings[4].1);
    push_str(&mut out, " C\r\n");
    push_str(&mut out, " Uptime: ");
    push_u32_text(&mut out, f.uptime / 1000);
    push_str(&mut out, " s\r\n");
    push_str(&mut out, " Relay: ");
    if f.relay_mode != 0 {
        push_str(&mut out, "ON\r\n");
    } else {
        push_str(&mut out, "OFF\r\n");
    }
    push_str(&mut out, " Storage: ");
    push_decimal(&mut out, f.storage_count as u32);
    push_str(&mut out, "\r\n");
    assert(out@ =~= telemetry_text(*f, readings@));
    out
}

/// The command that console key `key` sends, with its parameter bytes:
/// keys 1 to 6 send the command of that number (3 with an interval of ten
/// seconds, 4 deploying the antenna, 5 with a setpoint of 28.5 °C, 6 switching
/// relaying on).
pub open spec fn menu_command(key: u8) -> Option<(u8, Seq<u8>)> {
    if key == 49 {
        Some((0x01u8, Seq::<u8>::empty()))
    } else if key == 50 {
        Some((0x02u8, Seq::<u8>::empty()))
    } else if key == 51 {
        Some((0x03u8, seq![10u8, 0u8]))
    } else if key == 52 {
        Some((0x04u8, seq![1u8]))
    } else if key == 53 {
        Some((0x05u8, seq![0x1Du8, 0x01u8]))
    } else if key == 54 {
        Some((0x06u8, seq![1u8]))
    } else {
        None
    }
}

/// The action for a key typed on the console: the command of `menu_command`,
/// the menu for key 9, nothing for every other key.
pub fn menu_action(key: u8) -> (r: MenuAction)
    ensures
        match r {
            MenuAction::Send { code, params } => menu_command(key) == Some((code, params@)),
            MenuAction::ShowMenu => key == 57,
            MenuAction::Nothing => key != 57 && menu_command(key) is None,
        },
{
    if key == 49 {
        MenuAction::Send { code: 0x01, params: Vec::new() }
    } else if key == 50 {
        MenuAction::Send { code: 0x02, params: Vec::new() }
    } else if key == 51 {
        MenuAction::Send { code: 0x03, params: vec![10u8, 0u8] }
    } else if key == 52 {
        MenuAction::Send { code: 0x04, params: vec![1u8] }
    } else if key == 53 {
        MenuAction::Send { code: 0x05, params: vec![0x1Du8, 0x01u8] }
    } else if key == 54 {
        MenuAction::Send { code: 0x06, params: vec![1u8] }
    } else if key == 57 {
        MenuAction::ShowMenu
    } else {
        MenuAction::Nothing
    }
}

} // verus!
