//! StringReference commands: the characters of a string object.

use vstd::prelude::*;
use crate::commands::{command_sets, string_reference_commands};
use crate::protocol::{CommandPacket, JdwpResult, ReplyPacket, reply_decoded_view};
use crate::reader::{first, read_string, take_string, u64_bytes, write_u64};
use crate::types::ObjectId;

verus! {

/// StringReference.Value: the string object id.
pub fn string_value_request(id: u32, string_id: ObjectId) -> (p: CommandPacket)
    ensures
        p.id == id,
        p.command_set == 10 && p.command == 1,
        p.data@ == u64_bytes(string_id),
{
    let mut packet = CommandPacket::new(
        id,
        command_sets::STRING_REFERENCE,
        string_reference_commands::VALUE,
    );
    write_u64(&mut packet.data, string_id);
    packet
}

/// Parse a StringReference.Value reply: one JDWP string.
pub fn parse_string_value_reply(reply: &ReplyPacket) -> (r: JdwpResult<String>)
    ensures
        reply_decoded_view(r, reply@, first(take_string(reply.data@))),
{
    reply.check_error()?;
    let mut data = reply.data();
    let value = read_string(&mut data)?;
    Ok(value)
}

} // verus!
