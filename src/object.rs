//! ObjectReference commands: the type of an object and its field values.

use vstd::prelude::*;
use crate::commands::{command_sets, object_reference_commands};
use crate::protocol::{CommandPacket, JdwpResult, ReplyPacket, reply_decoded};
use crate::reader::{read_u64, read_u8, take_u64, take_u8, u32_bytes, u64_bytes, write_i32, write_u64};
use crate::types::{FieldId, ObjectId, ReferenceTypeId, Value};

verus! {

/// Field value from an object
#[derive(Debug, Clone, Copy, PartialEq, Eq, Structural)]
pub struct FieldValue {
    pub field_id: FieldId,
    pub value: Value,
}

/// Each id as eight bytes.
pub open spec fn ids_bytes(s: Seq<u64>) -> Seq<u8>
    decreases s.len(),
{
    if s.len() == 0 {
        Seq::empty()
    } else {
        ids_bytes(s.drop_last()) + u64_bytes(s.last())
    }
}

/// The payload of an ObjectReference.ReferenceType reply: a type tag, which
/// is skipped, then the reference type id.
pub open spec fn reference_type_of(b: Seq<u8>) -> Option<ReferenceTypeId> {
    match take_u8(b) {
        Some((_, b1)) => match take_u64(b1) {
            Some((id, _)) => Some(id),
            None => None,
        },
        None => None,
    }
}

/// ObjectReference.ReferenceType: the object id.
pub fn object_reference_type_request(id: u32, object_id: ObjectId) -> (p: CommandPacket)
    ensures
        p.id == id,
        p.command_set == 9 && p.command == 1,
        p.data@ == u64_bytes(object_id),
{
    let mut packet = CommandPacket::new(
        id,
        command_sets::OBJECT_REFERENCE,
        object_reference_commands::REFERENCE_TYPE,
    );
    write_u64(&mut packet.data, object_id);
    packet
}

/// Parse an ObjectReference.ReferenceType reply.
pub fn parse_object_reference_type_reply(reply: &ReplyPacket) -> (r: JdwpResult<ReferenceTypeId>)
    ensures
        reply_decoded(r, reply@, reference_type_of(reply.data@)),
{
    reply.check_error()?;
    let mut data = reply.data();
    let _type_tag = read_u8(&mut data)?;
    let reference_type_id = read_u64(&mut data)?;
    Ok(reference_type_id)
}

/// ObjectReference.GetValues: the object id, then the count and the field ids.
/// Its reply is read by `parse_values_reply`.
pub fn object_values_request(id: u32, object_id: ObjectId, field_ids: &Vec<FieldId>) -> (p:
    CommandPacket)
    requires
        field_ids@.len() <= i32::MAX,
    ensures
        p.id == id,
        p.command_set == 9 && p.command == 2,
        p.data@ == u64_bytes(object_id) + u32_bytes(field_ids@.len() as u32) + ids_bytes(field_ids@),
{
    let mut packet = CommandPacket::new(
        id,
        command_sets::OBJECT_REFERENCE,
        object_reference_commands::GET_VALUES,
    );
    write_u64(&mut packet.data, object_id);
    write_i32(&mut packet.data, field_ids.len() as i32);
    let ghost head = packet.data@;
    let mut i: usize = 0;
    while i < field_ids.len()
        invariant
            i <= field_ids@.len(),
            packet.id == id,
            packet.command_set == 9 && packet.command == 2,
            head == u64_bytes(object_id) + u32_bytes(field_ids@.len() as u32),
            packet.data@ == head + ids_bytes(field_ids@.take(i as int)),
        decreases field_ids@.len() - i,
    {
        write_u64(&mut packet.data, field_ids[i]);
        assert(field_ids@.take(i + 1).drop_last() =~= field_ids@.take(i as int));
        assert(packet.data@ =~= head + ids_bytes(field_ids@.take(i + 1)));
        i = i + 1;
    }
    assert(field_ids@.take(i as int) =~= field_ids@);
    packet
}

} // verus!
