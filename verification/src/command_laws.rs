//! What each ground command does to the satellite, stated over the raw
//! parameter bytes.

use vstd::prelude::*;
use crate::satellite::{command_effect, CommandEffect, SatelliteState};

verus! {

/// The unsigned number held little-endian in the first two parameter bytes.
pub open spec fn first_u16(params: Seq<u8>) -> int {
    params[0] + 256 * params[1]
}

/// The two's complement number held little-endian in the first two
/// parameter bytes.
pub open spec fn first_i16(params: Seq<u8>) -> int {
    if params[1] >= 128 {
        first_u16(params) - 65536
    } else {
        first_u16(params)
    }
}

/// The telemetry request (0x01) always succeeds and changes no state.
pub proof fn lemma_get_telemetry_command(s: SatelliteState, params: Seq<u8>)
    ensures
        command_effect(1, params) == (CommandEffect::Completed { success: true }),
        s.after_command(1, params) == s,
{
}

/// The reset command (0x02) asks for a reboot and changes no state.
pub proof fn lemma_reset_command(s: SatelliteState, params: Seq<u8>)
    ensures
        command_effect(2, params) == CommandEffect::Reboot,
        s.after_command(2, params) == s,
{
}

/// Setting the beacon interval (0x03) succeeds exactly when the parameters
/// hold at least two bytes whose little-endian number is five seconds or
/// more, however long the interval; it then becomes the interval, and
/// nothing else changes. Otherwise the command fails and changes nothing.
pub proof fn lemma_set_beacon_interval_command(s: SatelliteState, params: Seq<u8>)
    ensures
        ({
            let ok = params.len() >= 2 && first_u16(params) >= 5;
            let t = s.after_command(3, params);
            &&& command_effect(3, params) == (CommandEffect::Completed { success: ok })
            &&& ok ==> t.beacon_interval_secs == first_u16(params)
            &&& ok ==> t.last_beacon_ms == s.last_beacon_ms
            &&& ok ==> t.setpoint_tenths == s.setpoint_tenths
            &&& ok ==> t.antenna_deployed == s.antenna_deployed
            &&& !ok ==> t == s
        }),
{
    if params.len() >= 2 {
        assert(0 <= first_u16(params) < 65536);
    }
}

/// Deploying the antenna (0x04) needs one parameter byte: the antenna is
/// deployed when it is not zero and stowed when it is, and the command
/// succeeds. Without a parameter byte it fails and changes nothing.
pub proof fn lemma_deploy_antenna_command(s: SatelliteState, params: Seq<u8>)
    ensures
        params.len() >= 1 ==> command_effect(4, params) == (CommandEffect::DeployAntenna {
            deploy: params[0] != 0,
        }),
        params.len() >= 1 ==> s.after_command(4, params) == (SatelliteState {
            antenna_deployed: params[0] != 0,
            ..s
        }),
        params.len() == 0 ==> command_effect(4, params) == (CommandEffect::Completed {
            success: false,
        }),
        params.len() == 0 ==> s.after_command(4, params) == s,
{
}

/// Setting the temperature (0x05) succeeds exactly when the parameters hold
/// at least two bytes whose little-endian two's complement number lies
/// between -200 and 800 tenths of a degree; it then becomes the setpoint, and
/// nothing else changes. Otherwise the command fails and changes nothing.
pub proof fn lemma_set_temperature_command(s: SatelliteState, params: Seq<u8>)
    ensures
        ({
            let ok = params.len() >= 2 && -200 <= first_i16(params) <= 800;
            let t = s.after_command(5, params);
            &&& command_effect(5, params) == (CommandEffect::Completed { success: ok })
            &&& ok ==> t.setpoint_tenths == first_i16(params)
            &&& ok ==> t.beacon_interval_secs == s.beacon_interval_secs
            &&& ok ==> t.last_beacon_ms == s.last_beacon_ms
            &&& ok ==> t.antenna_deployed == s.antenna_deployed
            &&& !ok ==> t == s
        }),
{
    if params.len() >= 2 {
        assert(0 <= first_u16(params) < 65536);
    }
}

/// Every code other than 0x01 to 0x05 (the relay mode 0x06 among them) fails
/// and changes nothing.
pub proof fn lemma_unknown_command(s: SatelliteState, code: u8, params: Seq<u8>)
    requires
        code == 0 || code > 5,
    ensures
        command_effect(code, params) == (CommandEffect::Completed { success: false }),
        s.after_command(code, params) == s,
{
}

} // verus!
