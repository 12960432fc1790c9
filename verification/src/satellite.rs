//! The satellite's side of the link: beacons, reception of ground commands,
//! their execution, and the frames sent back.

use vstd::prelude::*;
use crate::codec::{i16_at, read_i16_le, read_u16_le, read_u32_le, u16_at, u32_at};
use crate::protocol::{
    BeaconFrame, CommandAckFrame, CommandResultCode, FrameHeader, FrameType, ProtocolId,
    SatTelemetryFrame, BROADCAST_ADDR, GROUND_COMMAND_LEN, HEADER_LEN, SATELLITE_ID,
    SAT_TELEMETRY_LEN,
};

verus! {

/// Beacon interval after boot, in seconds.
pub const DEFAULT_BEACON_INTERVAL_SECS: u16 = 10;

/// Shortest beacon interval a command may set, in seconds.
pub const MIN_BEACON_INTERVAL_SECS: u16 = 5;

/// Temperature setpoint after boot, in tenths of a degree Celsius (28.0 °C).
pub const DEFAULT_SETPOINT_TENTHS: i16 = 280;

/// Lowest setpoint a command may set, in tenths of a degree (-20.0 °C).
pub const MIN_SETPOINT_TENTHS: i16 = -200;

/// Highest setpoint a command may set, in tenths of a degree (80.0 °C).
pub const MAX_SETPOINT_TENTHS: i16 = 800;

/// Time between two readings of the sensors, in milliseconds.
pub const SENSOR_PERIOD_MS: u64 = 500;

/// What the satellite's commands can change.
///
/// The setpoint is kept in tenths of a degree: the command carries it so, and
/// the heater control divides it by ten.
#[derive(Debug, PartialEq, Eq, Clone, Copy, Structural)]
pub struct SatelliteState {
    pub beacon_interval_secs: u16,
    pub last_beacon_ms: u64,
    pub setpoint_tenths: i16,
    pub antenna_deployed: bool,
}

/// What a command asks of the satellite beyond its state.
#[derive(Debug, PartialEq, Eq, Clone, Copy, Structural)]
pub enum CommandEffect {
    /// The command is done; `success` says whether it was carried out.
    Completed { success: bool },
    /// Reboot the satellite; the command gets no further answer.
    Reboot,
    /// Drive the antenna deployment line to `deploy`; the command succeeded.
    DeployAntenna { deploy: bool },
}

impl CommandEffect {
    /// Whether the command counts as carried out.
    pub open spec fn succeeded(self) -> bool {
        match self {
            CommandEffect::Completed { success } => success,
            CommandEffect::Reboot => false,
            CommandEffect::DeployAntenna { .. } => true,
        }
    }
}

/// A ground command as the satellite receives it.
pub struct ReceivedCommand {
    pub dest_addr: u32,
    pub src_addr: u32,
    pub code: u8,
    pub params: Vec<u8>,
}

/// What the satellite sends and does in answer to a command addressed to it.
pub struct CommandResponse {
    /// Sent at once: the command was received.
    pub received_ack: CommandAckFrame,
    /// What the command asks beyond the state change.
    pub effect: CommandEffect,
    /// Whether telemetry goes down before the final acknowledgement.
    pub send_telemetry: bool,
    /// Sent last: whether the command was carried out.
    pub final_ack: CommandAckFrame,
}

/// Kind of a received frame: the low four bits of its first byte.
pub open spec fn frame_kind(first: u8) -> u8 {
    first % 16
}

/// The ground command in a packet of `len` bytes held at the start of `s`:
/// destination, source, command code and parameter bytes.
///
/// A packet is a ground command when the low four bits of its first byte are
/// the ground command's kind and it is at least `GROUND_COMMAND_LEN` bytes
/// long; the bytes after the frame are the command's parameters.
pub open spec fn received_command(s: Seq<u8>, len: nat) -> Option<(u32, u32, u8, Seq<u8>)> {
    if frame_kind(s[0]) == FrameType::GroundCommand.spec_code() && len >= GROUND_COMMAND_LEN {
        Some((u32_at(s, 1), u32_at(s, 5), s[12], s.subrange(GROUND_COMMAND_LEN as int, len as int)))
    } else {
        None
    }
}

/// Whether the satellite accepts a frame sent to `dest`.
pub open spec fn accepts(dest: u32) -> bool {
    dest == SATELLITE_ID || dest == BROADCAST_ADDR
}

/// The effect of command `code` with parameter bytes `params`.
pub open spec fn command_effect(code: u8, params: Seq<u8>) -> CommandEffect {
    if code == 0x01 {
        CommandEffect::Completed { success: true }
    } else if code == 0x02 {
        CommandEffect::Reboot
    } else if code == 0x03 {
        CommandEffect::Completed {
            success: params.len() >= 2 && u16_at(params, 0) >= MIN_BEACON_INTERVAL_SECS,
        }
    } else if code == 0x04 {
        if params.len() >= 1 {
            CommandEffect::DeployAntenna { deploy: params[0] != 0 }
        } else {
            CommandEffect::Completed { success: false }
        }
    } else if code == 0x05 {
        CommandEffect::Completed {
            success: params.len() >= 2 && MIN_SETPOINT_TENTHS <= i16_at(params, 0)
                <= MAX_SETPOINT_TENTHS,
        }
    } else {
        CommandEffect::Completed { success: false }
    }
}

/// The acknowledgement of command `code` that the satellite sends to `dest`.
pub open spec fn ack_for(dest: u32, code: u8, result: CommandResultCode) -> CommandAckFrame {
    CommandAckFrame {
        header: FrameHeader {
            frame_type: FrameType::CommandAck.spec_code(),
            dest_addr: dest,
            src_addr: SATELLITE_ID,
            protocol_id: ProtocolId::CmdControl.spec_code(),
            flags: 0,
            data_length: 2,
        },
        command_code: code,
        result_code: result.spec_code(),
    }
}

/// A timestamp in milliseconds as a 32-bit frame field carries it.
pub open spec fn ms_field(ms: u64) -> u32 {
    (ms % 4294967296) as u32
}

impl SatelliteState {
    /// The bounds that commands keep: an interval of at least five seconds
    /// and a setpoint between -20.0 and 80.0 °C.
    pub open spec fn wf(self) -> bool {
        &&& self.beacon_interval_secs >= MIN_BEACON_INTERVAL_SECS
        &&& MIN_SETPOINT_TENTHS <= self.setpoint_tenths <= MAX_SETPOINT_TENTHS
    }

    /// The state after command `code` with parameter bytes `params`.
    pub open spec fn after_command(self, code: u8, params: Seq<u8>) -> SatelliteState {
        if code == 0x03 && params.len() >= 2 && u16_at(params, 0) >= MIN_BEACON_INTERVAL_SECS {
            SatelliteState { beacon_interval_secs: u16_at(params, 0), ..self }
        } else if code == 0x04 && params.len() >= 1 {
            SatelliteState { antenna_deployed: params[0] != 0, ..self }
        } else if code == 0x05 && params.len() >= 2 && MIN_SETPOINT_TENTHS <= i16_at(params, 0)
            <= MAX_SETPOINT_TENTHS {
            SatelliteState { setpoint_tenths: i16_at(params, 0), ..self }
        } else {
            self
        }
    }

    /// The state at boot, `now_ms` being the boot time.
    pub fn new(now_ms: u64) -> (r: SatelliteState)
        ensures
            r == (SatelliteState {
                beacon_interval_secs: DEFAULT_BEACON_INTERVAL_SECS,
                last_beacon_ms: now_ms,
                setpoint_tenths: DEFAULT_SETPOINT_TENTHS,
                antenna_deployed: false,
            }),
            r.beacon_interval_secs == 10,
            r.setpoint_tenths == 280,
            r.wf(),
    {
        SatelliteState {
            beacon_interval_secs: DEFAULT_BEACON_INTERVAL_SECS,
            last_beacon_ms: now_ms,
            setpoint_tenths: DEFAULT_SETPOINT_TENTHS,
            antenna_deployed: false,
        }
    }

    /// Whether a beacon is due at `now_ms`: a full interval has passed since
    /// the last one.
    pub fn beacon_due(&self, now_ms: u64) -> (r: bool)
        requires
            self.last_beacon_ms <= now_ms,
        ensures
            r == (now_ms - self.last_beacon_ms >= self.beacon_interval_secs * 1000),
    {
        now_ms - self.last_beacon_ms >= self.beacon_interval_secs as u64 * 1000
    }

    /// The beacon sent at `now_ms`; the next one is timed from now.
    pub fn beacon(&mut self, now_ms: u64) -> (r: BeaconFrame)
        ensures
            r == (BeaconFrame {
                frame_control: FrameType::Beacon.spec_code(),
                satellite_id: SATELLITE_ID,
                beacon_interval: old(self).beacon_interval_secs,
                timestamp: ms_field(now_ms),
                reserved: 0,
            }),
            r.frame_control == 1,
            r.satellite_id == 1,
            *final(self) == (SatelliteState { last_beacon_ms: now_ms, ..*old(self) }),
    {
        self.last_beacon_ms = now_ms;
        BeaconFrame {
            frame_control: FrameType::Beacon.code(),
            satellite_id: SATELLITE_ID,
            beacon_interval: self.beacon_interval_secs,
            timestamp: (now_ms % 4294967296) as u32,
            reserved: 0,
        }
    }
}

/// Whether the sensors are due for a reading at `now_ms`, the last one
/// having been taken at `last_read_ms`.
pub fn sensors_due(last_read_ms: u64, now_ms: u64) -> (r: bool)
    requires
        last_read_ms <= now_ms,
    ensures
        r == (now_ms - last_read_ms >= SENSOR_PERIOD_MS),
        r == (now_ms - last_read_ms >= 500),
{
    now_ms - last_read_ms >= SENSOR_PERIOD_MS
}

/// Whether the satellite accepts a frame sent to `dest`: its own address or
/// the broadcast address.
pub fn accepts_destination(dest: u32) -> (r: bool)
    ensures
        r == accepts(dest),
        r == (dest == 1 || dest == 0xFFFFFFFF),
{
    dest == SATELLITE_ID || dest == BROADCAST_ADDR
}

/// Reads a ground command out of a received packet of `len` bytes held at the
/// start of `rx_buf` (see `received_command`).
pub fn parse_ground_command(rx_buf: &[u8], len: usize) -> (r: Option<ReceivedCommand>)
    requires
        rx_buf.len() >= 1,
        frame_kind(rx_buf@[0]) == FrameType::GroundCommand.spec_code() && len
            >= GROUND_COMMAND_LEN ==> len <= rx_buf.len(),
    ensures
        match r {
            Some(c) => received_command(rx_buf@, len as nat) == Some(
                (c.dest_addr, c.src_addr, c.code, c.params@),
            ),
            None => received_command(rx_buf@, len as nat) is None,
        },
{
    let kind = rx_buf[0] % 16;
    if kind != FrameType::GroundCommand.code() || len < GROUND_COMMAND_LEN {
        return None;
    }
    let dest = read_u32_le(rx_buf, 1);
    let src = read_u32_le(rx_buf, 5);
    let code = rx_buf[HEADER_LEN];
    let mut params: Vec<u8> = Vec::new();
    let mut i: usize = GROUND_COMMAND_LEN;
    while i < len
        invariant
            GROUND_COMMAND_LEN <= i <= len,
            len <= rx_buf.len(),
            params@ == rx_buf@.subrange(GROUND_COMMAND_LEN as int, i as int),
        decreases len - i,
    {
        params.push(rx_buf[i]);
        i = i + 1;
        assert(params@ =~= rx_buf@.subrange(GROUND_COMMAND_LEN as int, i as int));
    }
    Some(ReceivedCommand { dest_addr: dest, src_addr: src, code, params })
}

/// Carries out command `code` with parameter bytes `params`.
///
/// 0x01 asks for telemetry and always succeeds; 0x02 reboots; 0x03 sets the
/// beacon interval to the little-endian `u16` of seconds in the parameters,
/// when there is one and it is at least five; 0x04 sets the antenna to deploy
/// when its first parameter byte is not zero, and to stow when it is, if there
/// is one; 0x05 sets the setpoint to the little-endian `i16` of tenths of a
/// degree in the parameters, when there is one between -200 and 800. Every
/// other code, the relay mode 0x06 among them, fails and changes nothing.
pub fn execute_ground_command(state: &mut SatelliteState, code: u8, params: &[u8]) -> (r:
    CommandEffect)
    ensures
        r == command_effect(code, params@),
        *final(state) == old(state).after_command(code, params@),
        old(state).wf() ==> final(state).wf(),
{
    if code == 0x01 {
        CommandEffect::Completed { success: true }
    } else if code == 0x02 {
        CommandEffect::Reboot
    } else if code == 0x03 {
        if params.len() >= 2 {
            let secs = read_u16_le(params, 0);
            if secs >= MIN_BEACON_INTERVAL_SECS {
                state.beacon_interval_secs = secs;
                return CommandEffect::Completed { success: true };
            }
        }
        CommandEffect::Completed { success: false }
    } else if code == 0x04 {
        if params.len() >= 1 {
            let deploy = params[0] != 0;
            state.antenna_deployed = deploy;
            return CommandEffect::DeployAntenna { deploy };
        }
        CommandEffect::Completed { success: false }
    } else if code == 0x05 {
        if params.len() >= 2 {
            let raw = read_i16_le(params, 0);
            if MIN_SETPOINT_TENTHS <= raw && raw <= MAX_SETPOINT_TENTHS {
                state.setpoint_tenths = raw;
                return CommandEffect::Completed { success: true };
            }
        }
        CommandEffect::Completed { success: false }
    } else {
        CommandEffect::Completed { success: false }
    }
}

/// The acknowledgement of command `code` sent to `dest` with outcome `result`.
pub fn command_ack(dest: u32, code: u8, result: CommandResultCode) -> (r: CommandAckFrame)
    ensures
        r == ack_for(dest, code, result),
{
    CommandAckFrame {
        header: FrameHeader {
            frame_type: FrameType::CommandAck.code(),
            dest_addr: dest,
            src_addr: SATELLITE_ID,
            protocol_id: ProtocolId::CmdControl.code(),
            flags: 0,
            data_length: 2,
        },
        command_code: code,
        result_code: result.code(),
    }
}

/// Answers a received command addressed to the satellite: a "received"
/// acknowledgement, the command's effect on `state`, telemetry when a
/// telemetry request succeeded, and a final acknowledgement that says whether
/// the command was carried out.
pub fn respond_to_command(state: &mut SatelliteState, cmd: &ReceivedCommand) -> (r:
    CommandResponse)
    ensures
        r.received_ack == ack_for(cmd.src_addr, cmd.code, CommandResultCode::Received),
        r.effect == command_effect(cmd.code, cmd.params@),
        *final(state) == old(state).after_command(cmd.code, cmd.params@),
        r.send_telemetry == (r.effect.succeeded() && cmd.code == 0x01),
        r.final_ack == ack_for(
            cmd.src_addr,
            cmd.code,
            if r.effect.succeeded() {
                CommandResultCode::Success
            } else {
                CommandResultCode::Error
            },
        ),
{
    let received_ack = command_ack(cmd.src_addr, cmd.code, CommandResultCode::Received);
    let effect = execute_ground_command(state, cmd.code, cmd.params.as_slice());
    let success = match effect {
        CommandEffect::Completed { success } => success,
        CommandEffect::Reboot => false,
        CommandEffect::DeployAntenna { .. } => true,
    };
    let result = if success {
        CommandResultCode::Success
    } else {
        CommandResultCode::Error
    };
    let final_ack = command_ack(cmd.src_addr, cmd.code, result);
    CommandResponse { received_ack, effect, send_telemetry: success && cmd.code == 0x01, final_ack }
}

/// The telemetry frame sent to `dest`; the readings are the bit patterns of
/// the single-precision values, and the uptime is `uptime_ms` taken modulo
/// 2^32. No relay and no store are on board, so both counts are zero.
pub fn telemetry_frame(
    dest: u32,
    temp_batt1: u32,
    temp_batt2: u32,
    battery_voltage: u32,
    heater_power: u32,
    setpoint: u32,
    uptime_ms: u64,
) -> (r: SatTelemetryFrame)
    ensures
        r == (SatTelemetryFrame {
            header: FrameHeader {
                frame_type: FrameType::SatTelemetry.spec_code(),
                dest_addr: dest,
                src_addr: SATELLITE_ID,
                protocol_id: ProtocolId::SatTelemetry.spec_code(),
                flags: 0,
                data_length: (SAT_TELEMETRY_LEN - HEADER_LEN) as u8,
            },
            temp_batt1,
            temp_batt2,
            battery_voltage,
            heater_power,
            setpoint,
            uptime: ms_field(uptime_ms),
            relay_mode: 0,
            storage_count: 0,
        }),
        r.header.frame_type == 5,
        r.header.src_addr == 1,
        r.header.protocol_id == 4,
        r.header.data_length == 26,
{
    SatTelemetryFrame {
        header: FrameHeader {
            frame_type: FrameType::SatTelemetry.code(),
            dest_addr: dest,
            src_addr: SATELLITE_ID,
            protocol_id: ProtocolId::SatTelemetry.code(),
            flags: 0,
            data_length: (SAT_TELEMETRY_LEN - HEADER_LEN) as u8,
        },
        temp_batt1,
        temp_batt2,
        battery_voltage,
        heater_power,
        setpoint,
        uptime: (uptime_ms % 4294967296) as u32,
        relay_mode: 0,
        storage_count: 0,
    }
}

/// A command that fails leaves the state as it was.
pub proof fn lemma_failed_command_changes_nothing(s: SatelliteState, code: u8, params: Seq<u8>)
    requires
        command_effect(code, params) == (CommandEffect::Completed { success: false }),
    ensures
        s.after_command(code, params) == s,
{
}

/// Every command keeps the beacon interval at five seconds or more and the
/// setpoint between -20.0 and 80.0 °C.
pub proof fn lemma_commands_keep_bounds(s: SatelliteState, code: u8, params: Seq<u8>)
    requires
        s.wf(),
    ensures
        s.after_command(code, params).wf(),
{
}

} // verus!
