//! Frame kinds, addresses and the byte layout of every frame on the air.
//!
//! Every frame is laid out as a packed struct: fields in declaration order,
//! no padding, multi-byte integers little-endian.

use vstd::prelude::*;
use crate::codec::{
    le_u16, le_u32, lemma_u16_roundtrip, lemma_u32_roundtrip, push_u16_le, push_u32_le, read_u16_le,
    read_u32_le, u16_at, u32_at,
};

verus! {

/// Address of this satellite.
pub const SATELLITE_ID: u32 = 0x00000001;

/// Address that every station accepts.
pub const BROADCAST_ADDR: u32 = 0xFFFFFFFF;

/// Address of the ground station.
pub const GROUND_STATION_ADDR: u32 = 0x00000010;

/// Length of `FrameHeader` on the air.
pub const HEADER_LEN: usize = 12;

/// Length of `BeaconFrame` on the air.
pub const BEACON_LEN: usize = 12;

/// Length of `GroundCommandFrame` on the air.
pub const GROUND_COMMAND_LEN: usize = 13;

/// Length of `CommandAckFrame` on the air.
pub const COMMAND_ACK_LEN: usize = 14;

/// Length of `SatTelemetryFrame` on the air.
pub const SAT_TELEMETRY_LEN: usize = 38;

/// Length of the data area of a `StoredDataRecord`.
pub const STORED_DATA_CAPACITY: usize = 239;

/// Kind of a frame, carried in the low four bits of its first byte.
#[derive(Debug, PartialEq, Eq, Clone, Copy, Structural)]
pub enum FrameType {
    Beacon,
    Data,
    Command,
    CommandAck,
    SatTelemetry,
    DataDump,
    GroundCommand,
    Transport,
}

impl FrameType {
    /// The wire value of this frame kind.
    pub open spec fn spec_code(self) -> u8 {
        match self {
            FrameType::Beacon => 0x01,
            FrameType::Data => 0x02,
            FrameType::Command => 0x03,
            FrameType::CommandAck => 0x04,
            FrameType::SatTelemetry => 0x05,
            FrameType::DataDump => 0x06,
            FrameType::GroundCommand => 0x07,
            FrameType::Transport => 0x08,
        }
    }

    /// The frame kind with wire value `c`, if any.
    pub open spec fn spec_from_code(c: u8) -> Option<FrameType> {
        if c == 0x01 {
            Some(FrameType::Beacon)
        } else if c == 0x02 {
            Some(FrameType::Data)
        } else if c == 0x03 {
            Some(FrameType::Command)
        } else if c == 0x04 {
            Some(FrameType::CommandAck)
        } else if c == 0x05 {
            Some(FrameType::SatTelemetry)
        } else if c == 0x06 {
            Some(FrameType::DataDump)
        } else if c == 0x07 {
            Some(FrameType::GroundCommand)
        } else if c == 0x08 {
            Some(FrameType::Transport)
        } else {
            None
        }
    }

    /// The wire value of this frame kind.
    pub fn code(self) -> (r: u8)
        ensures
            r == self.spec_code(),
    {
        match self {
            FrameType::Beacon => 0x01,
            FrameType::Data => 0x02,
            FrameType::Command => 0x03,
            FrameType::CommandAck => 0x04,
            FrameType::SatTelemetry => 0x05,
            FrameType::DataDump => 0x06,
            FrameType::GroundCommand => 0x07,
            FrameType::Transport => 0x08,
        }
    }

    /// The frame kind with wire value `c`; `None` for a value no kind has.
    pub fn from_code(c: u8) -> (r: Option<FrameType>)
        ensures
            r == Self::spec_from_code(c),
    {
        if c == 0x01 {
            Some(FrameType::Beacon)
        } else if c == 0x02 {
            Some(FrameType::Data)
        } else if c == 0x03 {
            Some(FrameType::Command)
        } else if c == 0x04 {
            Some(FrameType::CommandAck)
        } else if c == 0x05 {
            Some(FrameType::SatTelemetry)
        } else if c == 0x06 {
            Some(FrameType::DataDump)
        } else if c == 0x07 {
            Some(FrameType::GroundCommand)
        } else if c == 0x08 {
            Some(FrameType::Transport)
        } else {
            None
        }
    }
}

/// Higher-layer protocol of a frame's payload.
#[derive(Debug, PartialEq, Eq, Clone, Copy, Structural)]
pub enum ProtocolId {
    Raw,
    CmdControl,
    StoreForward,
    SatTelemetry,
    TimeSync,
    Fragmentation,
}

impl ProtocolId {
    /// The wire value of this protocol.
    pub open spec fn spec_code(self) -> u8 {
        match self {
            ProtocolId::Raw => 0x00,
            ProtocolId::CmdControl => 0x01,
            ProtocolId::StoreForward => 0x03,
            ProtocolId::SatTelemetry => 0x04,
            ProtocolId::TimeSync => 0x05,
            ProtocolId::Fragmentation => 0x09,
        }
    }

    /// The protocol with wire value `c`, if any.
    pub open spec fn spec_from_code(c: u8) -> Option<ProtocolId> {
        if c == 0x00 {
            Some(ProtocolId::Raw)
        } else if c == 0x01 {
            Some(ProtocolId::CmdControl)
        } else if c == 0x03 {
            Some(ProtocolId::StoreForward)
        } else if c == 0x04 {
            Some(ProtocolId::SatTelemetry)
        } else if c == 0x05 {
            Some(ProtocolId::TimeSync)
        } else if c == 0x09 {
            Some(ProtocolId::Fragmentation)
        } else {
            None
        }
    }

    /// The wire value of this protocol.
    pub fn code(self) -> (r: u8)
        ensures
            r == self.spec_code(),
    {
        match self {
            ProtocolId::Raw => 0x00,
            ProtocolId::CmdControl => 0x01,
            ProtocolId::StoreForward => 0x03,
            ProtocolId::SatTelemetry => 0x04,
            ProtocolId::TimeSync => 0x05,
            ProtocolId::Fragmentation => 0x09,
        }
    }

    /// The protocol with wire value `c`; `None` for a value no protocol has.
    pub fn from_code(c: u8) -> (r: Option<ProtocolId>)
        ensures
            r == Self::spec_from_code(c),
    {
        if c == 0x00 {
            Some(ProtocolId::Raw)
        } else if c == 0x01 {
            Some(ProtocolId::CmdControl)
        } else if c == 0x03 {
            Some(ProtocolId::StoreForward)
        } else if c == 0x04 {
            Some(ProtocolId::SatTelemetry)
        } else if c == 0x05 {
            Some(ProtocolId::TimeSync)
        } else if c == 0x09 {
            Some(ProtocolId::Fragmentation)
        } else {
            None
        }
    }
}

/// Command that the ground station can send to the satellite.
#[derive(Debug, PartialEq, Eq, Clone, Copy, Structural)]
pub enum GroundCommandCode {
    GetTelemetry,
    Reset,
    SetBeaconInterval,
    DeployAntenna,
    SetTemperature,
    SetRelayMode,
}

impl GroundCommandCode {
    /// The wire value of this command.
    pub open spec fn spec_code(self) -> u8 {
        match self {
            GroundCommandCode::GetTelemetry => 0x01,
            GroundCommandCode::Reset => 0x02,
            GroundCommandCode::SetBeaconInterval => 0x03,
            GroundCommandCode::DeployAntenna => 0x04,
            GroundCommandCode::SetTemperature => 0x05,
            GroundCommandCode::SetRelayMode => 0x06,
        }
    }

    /// The command with wire value `c`, if any.
    pub open spec fn spec_from_code(c: u8) -> Option<GroundCommandCode> {
        if c == 0x01 {
            Some(GroundCommandCode::GetTelemetry)
        } else if c == 0x02 {
            Some(GroundCommandCode::Reset)
        } else if c == 0x03 {
            Some(GroundCommandCode::SetBeaconInterval)
        } else if c == 0x04 {
            Some(GroundCommandCode::DeployAntenna)
        } else if c == 0x05 {
            Some(GroundCommandCode::SetTemperature)
        } else if c == 0x06 {
            Some(GroundCommandCode::SetRelayMode)
        } else {
            None
        }
    }

    /// The wire value of this command.
    pub fn code(self) -> (r: u8)
        ensures
            r == self.spec_code(),
    {
        match self {
            GroundCommandCode::GetTelemetry => 0x01,
            GroundCommandCode::Reset => 0x02,
            GroundCommandCode::SetBeaconInterval => 0x03,
            GroundCommandCode::DeployAntenna => 0x04,
            GroundCommandCode::SetTemperature => 0x05,
            GroundCommandCode::SetRelayMode => 0x06,
        }
    }

    /// The command with wire value `c`; `None` for a value no command has.
    pub fn from_code(c: u8) -> (r: Option<GroundCommandCode>)
        ensures
            r == Self::spec_from_code(c),
    {
        if c == 0x01 {
            Some(GroundCommandCode::GetTelemetry)
        } else if c == 0x02 {
            Some(GroundCommandCode::Reset)
        } else if c == 0x03 {
            Some(GroundCommandCode::SetBeaconInterval)
        } else if c == 0x04 {
            Some(GroundCommandCode::DeployAntenna)
        } else if c == 0x05 {
            Some(GroundCommandCode::SetTemperature)
        } else if c == 0x06 {
            Some(GroundCommandCode::SetRelayMode)
        } else {
            None
        }
    }
}

/// Outcome of a command, as reported in a `CommandAckFrame`.
#[derive(Debug, PartialEq, Eq, Clone, Copy, Structural)]
pub enum CommandResultCode {
    Success,
    Error,
    Received,
}

impl CommandResultCode {
    /// The wire value of this outcome.
    pub open spec fn spec_code(self) -> u8 {
        match self {
            CommandResultCode::Success => 0x00,
            CommandResultCode::Error => 0x01,
            CommandResultCode::Received => 0xFE,
        }
    }

    /// The outcome with wire value `c`, if any.
    pub open spec fn spec_from_code(c: u8) -> Option<CommandResultCode> {
        if c == 0x00 {
            Some(CommandResultCode::Success)
        } else if c == 0x01 {
            Some(CommandResultCode::Error)
        } else if c == 0xFE {
            Some(CommandResultCode::Received)
        } else {
            None
        }
    }

    /// The wire value of this outcome.
    pub fn code(self) -> (r: u8)
        ensures
            r == self.spec_code(),
    {
        match self {
            CommandResultCode::Success => 0x00,
            CommandResultCode::Error => 0x01,
            CommandResultCode::Received => 0xFE,
        }
    }

    /// The outcome with wire value `c`; `None` for a value no outcome has.
    pub fn from_code(c: u8) -> (r: Option<CommandResultCode>)
        ensures
            r == Self::spec_from_code(c),
    {
        if c == 0x00 {
            Some(CommandResultCode::Success)
        } else if c == 0x01 {
            Some(CommandResultCode::Error)
        } else if c == 0xFE {
            Some(CommandResultCode::Received)
        } else {
            None
        }
    }
}

/// A frame kind's wire value names that kind and no other.
pub proof fn lemma_frame_type_code(t: FrameType, c: u8)
    ensures
        FrameType::spec_from_code(t.spec_code()) == Some(t),
        FrameType::spec_from_code(c) matches Some(u) ==> u.spec_code() == c,
{
}

/// A protocol's wire value names that protocol and no other.
pub proof fn lemma_protocol_id_code(p: ProtocolId, c: u8)
    ensures
        ProtocolId::spec_from_code(p.spec_code()) == Some(p),
        ProtocolId::spec_from_code(c) matches Some(q) ==> q.spec_code() == c,
{
}

/// A command's wire value names that command and no other.
pub proof fn lemma_ground_command_code(g: GroundCommandCode, c: u8)
    ensures
        GroundCommandCode::spec_from_code(g.spec_code()) == Some(g),
        GroundCommandCode::spec_from_code(c) matches Some(h) ==> h.spec_code() == c,
{
}

/// An outcome's wire value names that outcome and no other.
pub proof fn lemma_command_result_code(r: CommandResultCode, c: u8)
    ensures
        CommandResultCode::spec_from_code(r.spec_code()) == Some(r),
        CommandResultCode::spec_from_code(c) matches Some(s) ==> s.spec_code() == c,
{
}

/// Header that opens every addressed frame.
#[derive(Debug, PartialEq, Eq, Clone, Copy, Structural)]
pub struct FrameHeader {
    pub frame_type: u8,
    pub dest_addr: u32,
    pub src_addr: u32,
    pub protocol_id: u8,
    pub flags: u8,
    pub data_length: u8,
}

impl FrameHeader {
    /// The header's bytes on the air.
    pub open spec fn wire(self) -> Seq<u8> {
        seq![self.frame_type] + le_u32(self.dest_addr) + le_u32(self.src_addr) + seq![
            self.protocol_id,
            self.flags,
            self.data_length,
        ]
    }

    /// The header held by the first `HEADER_LEN` bytes of `s`.
    pub open spec fn parse(s: Seq<u8>) -> FrameHeader {
        FrameHeader {
            frame_type: s[0],
            dest_addr: u32_at(s, 1),
            src_addr: u32_at(s, 5),
            protocol_id: s[9],
            flags: s[10],
            data_length: s[11],
        }
    }

    /// Appends the header's bytes to `out`.
    pub fn write(&self, out: &mut Vec<u8>)
        ensures
            final(out)@ == old(out)@ + self.wire(),
    {
        out.push(self.frame_type);
        push_u32_le(out, self.dest_addr);
        push_u32_le(out, self.src_addr);
        out.push(self.protocol_id);
        out.push(self.flags);
        out.push(self.data_length);
    }

    /// Reads a header from the first `HEADER_LEN` bytes of `buf`.
    pub fn read(buf: &[u8]) -> (r: FrameHeader)
        requires
            buf.len() >= HEADER_LEN,
        ensures
            r == Self::parse(buf@),
    {
        FrameHeader {
            frame_type: buf[0],
            dest_addr: read_u32_le(buf, 1),
            src_addr: read_u32_le(buf, 5),
            protocol_id: buf[9],
            flags: buf[10],
            data_length: buf[11],
        }
    }
}

/// Beacon that the satellite broadcasts; it has no header of its own.
#[derive(Debug, PartialEq, Eq, Clone, Copy, Structural)]
pub struct BeaconFrame {
    pub frame_control: u8,
    pub satellite_id: u32,
    pub beacon_interval: u16,
    pub timestamp: u32,
    pub reserved: u8,
}

impl BeaconFrame {
    /// The beacon's bytes on the air.
    pub open spec fn wire(self) -> Seq<u8> {
        seq![self.frame_control] + le_u32(self.satellite_id) + le_u16(self.beacon_interval)
            + le_u32(self.timestamp) + seq![self.reserved]
    }

    /// The beacon held by the first `BEACON_LEN` bytes of `s`.
    pub open spec fn parse(s: Seq<u8>) -> BeaconFrame {
        BeaconFrame {
            frame_control: s[0],
            satellite_id: u32_at(s, 1),
            beacon_interval: u16_at(s, 5),
            timestamp: u32_at(s, 7),
            reserved: s[11],
        }
    }

    /// The beacon's bytes on the air.
    pub fn to_bytes(&self) -> (r: Vec<u8>)
        ensures
            r@ == self.wire(),
    {
        let mut out: Vec<u8> = Vec::new();
        out.push(self.frame_control);
        push_u32_le(&mut out, self.satellite_id);
        push_u16_le(&mut out, self.beacon_interval);
        push_u32_le(&mut out, self.timestamp);
        out.push(self.reserved);
        out
    }

    /// Reads a beacon from the first `BEACON_LEN` bytes of `buf`.
    pub fn read(buf: &[u8]) -> (r: BeaconFrame)
        requires
            buf.len() >= BEACON_LEN,
        ensures
            r == Self::parse(buf@),
    {
        BeaconFrame {
            frame_control: buf[0],
            satellite_id: read_u32_le(buf, 1),
            beacon_interval: read_u16_le(buf, 5),
            timestamp: read_u32_le(buf, 7),
            reserved: buf[11],
        }
    }
}

/// Command from the ground station; its parameters follow it on the air.
#[derive(Debug, PartialEq, Eq, Clone, Copy, Structural)]
pub struct GroundCommandFrame {
    pub header: FrameHeader,
    pub command_code: u8,
}

impl GroundCommandFrame {
    /// The frame's bytes on the air.
    pub open spec fn wire(self) -> Seq<u8> {
        self.header.wire() + seq![self.command_code]
    }

    /// The frame held by the first `GROUND_COMMAND_LEN` bytes of `s`.
    pub open spec fn parse(s: Seq<u8>) -> GroundCommandFrame {
        GroundCommandFrame { header: FrameHeader::parse(s), command_code: s[12] }
    }

    /// Appends the frame's bytes to `out`.
    pub fn write(&self, out: &mut Vec<u8>)
        ensures
            final(out)@ == old(out)@ + self.wire(),
    {
        self.header.write(out);
        out.push(self.command_code);
    }

    /// Reads a frame from the first `GROUND_COMMAND_LEN` bytes of `buf`.
    pub fn read(buf: &[u8]) -> (r: GroundCommandFrame)
        requires
            buf.len() >= GROUND_COMMAND_LEN,
        ensures
            r == Self::parse(buf@),
    {
        GroundCommandFrame { header: FrameHeader::read(buf), command_code: buf[12] }
    }
}

/// Acknowledgement of a ground command.
#[derive(Debug, PartialEq, Eq, Clone, Copy, Structural)]
pub struct CommandAckFrame {
    pub header: FrameHeader,
    pub command_code: u8,
    pub result_code: u8,
}

impl CommandAckFrame {
    /// The frame's bytes on the air.
    pub open spec fn wire(self) -> Seq<u8> {
        self.header.wire() + seq![self.command_code, self.result_code]
    }

    /// The frame held by the first `COMMAND_ACK_LEN` bytes of `s`.
    pub open spec fn parse(s: Seq<u8>) -> CommandAckFrame {
        CommandAckFrame { header: FrameHeader::parse(s), command_code: s[12], result_code: s[13] }
    }

    /// The frame's bytes on the air.
    pub fn to_bytes(&self) -> (r: Vec<u8>)
        ensures
            r@ == self.wire(),
    {
        let mut out: Vec<u8> = Vec::new();
        self.header.write(&mut out);
        out.push(self.command_code);
        out.push(self.result_code);
        out
    }

    /// Reads a frame from the first `COMMAND_ACK_LEN` bytes of `buf`.
    pub fn read(buf: &[u8]) -> (r: CommandAckFrame)
        requires
            buf.len() >= COMMAND_ACK_LEN,
        ensures
            r == Self::parse(buf@),
    {
        CommandAckFrame {
            header: FrameHeader::read(buf),
            command_code: buf[12],
            result_code: buf[13],
        }
    }
}

/// Housekeeping telemetry of the satellite.
///
/// The five readings are IEEE-754 single-precision values; each field holds
/// the bit pattern of its reading, which is what travels on the air.
#[derive(Debug, PartialEq, Eq, Clone, Copy, Structural)]
pub struct SatTelemetryFrame {
    pub header: FrameHeader,
    pub temp_batt1: u32,
    pub temp_batt2: u32,
    pub battery_voltage: u32,
    pub heater_power: u32,
    pub setpoint: u32,
    pub uptime: u32,
    pub relay_mode: u8,
    pub storage_count: u8,
}

impl SatTelemetryFrame {
    /// The frame's bytes on the air.
    pub open spec fn wire(self) -> Seq<u8> {
        self.header.wire() + le_u32(self.temp_batt1) + le_u32(self.temp_batt2) + le_u32(
            self.battery_voltage,
        ) + le_u32(self.heater_power) + le_u32(self.setpoint) + le_u32(self.uptime) + seq![
            self.relay_mode,
            self.storage_count,
        ]
    }

    /// The frame held by the first `SAT_TELEMETRY_LEN` bytes of `s`.
    pub open spec fn parse(s: Seq<u8>) -> SatTelemetryFrame {
        SatTelemetryFrame {
            header: FrameHeader::parse(s),
            temp_batt1: u32_at(s, 12),
            temp_batt2: u32_at(s, 16),
            battery_voltage: u32_at(s, 20),
            heater_power: u32_at(s, 24),
            setpoint: u32_at(s, 28),
            uptime: u32_at(s, 32),
            relay_mode: s[36],
            storage_count: s[37],
        }
    }

    /// The frame's bytes on the air: the header, then battery 1 temperature
    /// at 12, battery 2 temperature at 16, battery voltage at 20, heater
    /// power at 24, setpoint at 28, uptime at 32, relay mode at 36 and
    /// storage count at 37.
    pub fn to_bytes(&self) -> (r: Vec<u8>)
        ensures
            r@ == self.wire(),
            r@.len() == 38,
            r@.subrange(0, 12) == self.header.wire(),
            r@.subrange(12, 16) == le_u32(self.temp_batt1),
            r@.subrange(16, 20) == le_u32(self.temp_batt2),
            r@.subrange(20, 24) == le_u32(self.battery_voltage),
            r@.subrange(24, 28) == le_u32(self.heater_power),
            r@.subrange(28, 32) == le_u32(self.setpoint),
            r@.subrange(32, 36) == le_u32(self.uptime),
            r@[36] == self.relay_mode,
            r@[37] == self.storage_count,
    {
        let mut out: Vec<u8> = Vec::new();
        self.header.write(&mut out);
        push_u32_le(&mut out, self.temp_batt1);
        push_u32_le(&mut out, self.temp_batt2);
        push_u32_le(&mut out, self.battery_voltage);
        push_u32_le(&mut out, self.heater_power);
        push_u32_le(&mut out, self.setpoint);
        push_u32_le(&mut out, self.uptime);
        out.push(self.relay_mode);
        out.push(self.storage_count);
        assert(out@.subrange(0, 12) =~= self.header.wire());
        assert(out@.subrange(12, 16) =~= le_u32(self.temp_batt1));
        assert(out@.subrange(16, 20) =~= le_u32(self.temp_batt2));
        assert(out@.subrange(20, 24) =~= le_u32(self.battery_voltage));
        assert(out@.subrange(24, 28) =~= le_u32(self.heater_power));
        assert(out@.subrange(28, 32) =~= le_u32(self.setpoint));
        assert(out@.subrange(32, 36) =~= le_u32(self.uptime));
        out
    }

    /// Reads a frame from the first `SAT_TELEMETRY_LEN` bytes of `buf`, each
    /// field at the offset where `to_bytes` puts it.
    pub fn read(buf: &[u8]) -> (r: SatTelemetryFrame)
        requires
            buf.len() >= SAT_TELEMETRY_LEN,
        ensures
            r == Self::parse(buf@),
            r.header == FrameHeader::parse(buf@),
            r.temp_batt1 == u32_at(buf@, 12),
            r.temp_batt2 == u32_at(buf@, 16),
            r.battery_voltage == u32_at(buf@, 20),
            r.heater_power == u32_at(buf@, 24),
            r.setpoint == u32_at(buf@, 28),
            r.uptime == u32_at(buf@, 32),
            r.relay_mode == buf@[36],
            r.storage_count == buf@[37],
    {
        SatTelemetryFrame {
            header: FrameHeader::read(buf),
            temp_batt1: read_u32_le(buf, 12),
            temp_batt2: read_u32_le(buf, 16),
            battery_voltage: read_u32_le(buf, 20),
            heater_power: read_u32_le(buf, 24),
            setpoint: read_u32_le(buf, 28),
            uptime: read_u32_le(buf, 32),
            relay_mode: buf[36],
            storage_count: buf[37],
        }
    }
}

/// A received packet kept for later download, with its radio metrics.
#[derive(Clone, Copy)]
pub struct StoredDataRecord {
    pub timestamp: u32,
    pub rssi: i16,
    pub snr: i8,
    pub data_length: u8,
    pub data: [u8; 239],
}

impl Default for StoredDataRecord {
    /// An empty record: every field zero.
    fn default() -> (r: StoredDataRecord)
        ensures
            r.timestamp == 0,
            r.rssi == 0,
            r.snr == 0,
            r.data_length == 0,
            r.data@ == Seq::new(STORED_DATA_CAPACITY as nat, |i: int| 0u8),
    {
        let r = StoredDataRecord {
            timestamp: 0,
            rssi: 0,
            snr: 0,
            data_length: 0,
            data: [0u8; 239],
        };
        assert(r.data@ =~= Seq::new(STORED_DATA_CAPACITY as nat, |i: int| 0u8));
        r
    }
}

/// A stored record on its way down to the ground.
pub struct DataDumpFrame {
    pub header: FrameHeader,
    pub record: StoredDataRecord,
}

/// Reading a header back from its bytes gives the header, whatever follows.
pub proof fn lemma_header_roundtrip(h: FrameHeader, rest: Seq<u8>)
    ensures
        FrameHeader::parse(h.wire() + rest) == h,
        h.wire().len() == HEADER_LEN,
{
    let s = h.wire() + rest;
    assert(s.subrange(1, 5) =~= le_u32(h.dest_addr));
    assert(s.subrange(5, 9) =~= le_u32(h.src_addr));
    lemma_u32_roundtrip(h.dest_addr, s, 1);
    lemma_u32_roundtrip(h.src_addr, s, 5);
}

/// Reading a beacon back from its bytes gives the beacon, whatever follows.
pub proof fn lemma_beacon_roundtrip(b: BeaconFrame, rest: Seq<u8>)
    ensures
        BeaconFrame::parse(b.wire() + rest) == b,
        b.wire().len() == BEACON_LEN,
{
    let s = b.wire() + rest;
    assert(s.subrange(1, 5) =~= le_u32(b.satellite_id));
    assert(s.subrange(5, 7) =~= le_u16(b.beacon_interval));
    assert(s.subrange(7, 11) =~= le_u32(b.timestamp));
    lemma_u32_roundtrip(b.satellite_id, s, 1);
    lemma_u16_roundtrip(b.beacon_interval, s, 5);
    lemma_u32_roundtrip(b.timestamp, s, 7);
}

/// Reading a ground command back from its bytes gives the command, whatever follows.
pub proof fn lemma_ground_command_roundtrip(f: GroundCommandFrame, rest: Seq<u8>)
    ensures
        GroundCommandFrame::parse(f.wire() + rest) == f,
        f.wire().len() == GROUND_COMMAND_LEN,
{
    let s = f.wire() + rest;
    assert(s =~= f.header.wire() + (seq![f.command_code] + rest));
    lemma_header_roundtrip(f.header, seq![f.command_code] + rest);
}

/// Reading an acknowledgement back from its bytes gives it, whatever follows.
pub proof fn lemma_command_ack_roundtrip(f: CommandAckFrame, rest: Seq<u8>)
    ensures
        CommandAckFrame::parse(f.wire() + rest) == f,
        f.wire().len() == COMMAND_ACK_LEN,
{
    let s = f.wire() + rest;
    assert(s =~= f.header.wire() + (seq![f.command_code, f.result_code] + rest));
    lemma_header_roundtrip(f.header, seq![f.command_code, f.result_code] + rest);
}

/// Reading telemetry back from its bytes gives the telemetry, whatever follows.
pub proof fn lemma_sat_telemetry_roundtrip(f: SatTelemetryFrame, rest: Seq<u8>)
    ensures
        SatTelemetryFrame::parse(f.wire() + rest) == f,
        f.wire().len() == SAT_TELEMETRY_LEN,
{
    let s = f.wire() + rest;
    let tail = s.subrange(12, s.len() as int);
    assert(s =~= f.header.wire() + tail);
    lemma_header_roundtrip(f.header, tail);
    assert(s.subrange(12, 16) =~= le_u32(f.temp_batt1));
    assert(s.subrange(16, 20) =~= le_u32(f.temp_batt2));
    assert(s.subrange(20, 24) =~= le_u32(f.battery_voltage));
    assert(s.subrange(24, 28) =~= le_u32(f.heater_power));
    assert(s.subrange(28, 32) =~= le_u32(f.setpoint));
    assert(s.subrange(32, 36) =~= le_u32(f.uptime));
    lemma_u32_roundtrip(f.temp_batt1, s, 12);
    lemma_u32_roundtrip(f.temp_batt2, s, 16);
    lemma_u32_roundtrip(f.battery_voltage, s, 20);
    lemma_u32_roundtrip(f.heater_power, s, 24);
    lemma_u32_roundtrip(f.setpoint, s, 28);
    lemma_u32_roundtrip(f.uptime, s, 32);
}

} // verus!
