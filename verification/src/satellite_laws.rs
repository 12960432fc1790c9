//! What the satellite reads out of a command packet and what its
//! acknowledgements carry on the air, with the wire values spelled out.

use vstd::prelude::*;
use crate::layout_laws::{header_at, holds_u32, value_u32};
use crate::protocol::CommandResultCode;
use crate::satellite::{ack_for, received_command};

verus! {

/// An acknowledgement to `dest` is fourteen bytes: kind 4 (acknowledgement),
/// the destination at 1..5, the satellite's address 1 at 5..9, protocol 1
/// (command and control), no flags, two data bytes, the command code at 12
/// and the outcome at 13: 0xFE for "received", 0 for success, 1 for error.
pub proof fn lemma_ack_bytes(dest: u32, code: u8, result: CommandResultCode)
    ensures
        ({
            let w = ack_for(dest, code, result).wire();
            &&& w.len() == 14
            &&& w[0] == 4
            &&& holds_u32(w, 1, dest as int)
            &&& holds_u32(w, 5, 1)
            &&& w[9] == 1
            &&& w[10] == 0
            &&& w[11] == 2
            &&& w[12] == code
            &&& w[13] == match result {
                CommandResultCode::Received => 0xFEu8,
                CommandResultCode::Success => 0u8,
                CommandResultCode::Error => 1u8,
            }
        }),
{
    let f = ack_for(dest, code, result);
    crate::layout_laws::lemma_command_ack_layout(f);
    assert(header_at(f.wire(), 0, f.header));
}

/// A packet of `len` bytes is a ground command exactly when the low four bits
/// of its first byte are 7 and it holds at least thirteen bytes; the
/// destination is then read at 1..5, the source at 5..9, the command code at
/// 12, and every byte after the thirteenth up to `len` is a parameter.
pub proof fn lemma_received_command_fields(s: Seq<u8>, len: nat)
    requires
        s.len() >= 1,
        len <= s.len(),
    ensures
        (s[0] % 16 == 7 && len >= 13) ==> ({
            let c = received_command(s, len);
            &&& c is Some
            &&& c.unwrap().0 == value_u32(s, 1)
            &&& c.unwrap().1 == value_u32(s, 5)
            &&& c.unwrap().2 == s[12]
            &&& c.unwrap().3.len() == len - 13
            &&& forall|i: int| 0 <= i < len - 13 ==> c.unwrap().3[i] == s[13 + i]
        }),
        !(s[0] % 16 == 7 && len >= 13) ==> received_command(s, len) is None,
{
    if s[0] % 16 == 7 && len >= 13 {
        assert(0 <= value_u32(s, 1) < 4294967296);
        assert(0 <= value_u32(s, 5) < 4294967296);
    }
}

} // verus!
