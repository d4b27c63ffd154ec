//! StackFrame commands: the values of local variables.

use vstd::prelude::*;
use crate::commands::{command_sets, stack_frame_commands};
use crate::protocol::{CommandPacket, JdwpResult, ReplyPacket, reply_decoded_seq};
use crate::reader::{
    count_of, counted_items, lemma_take_n_fails_on, read_i32, take_i32, take_n, u32_bytes,
    u64_bytes, write_i32, write_u64, write_u8,
};
use crate::types::{FrameId, ThreadId, Value, read_value, take_value};

verus! {

/// Variable slot information for GetValues
#[derive(Debug, Clone, Copy, PartialEq, Eq, Structural)]
pub struct VariableSlot {
    pub slot: i32,
    /// The tag byte of the variable's type.
    pub sig_byte: u8,
}

/// Each slot as four bytes of index and its tag byte.
pub open spec fn slots_bytes(s: Seq<VariableSlot>) -> Seq<u8>
    decreases s.len(),
{
    if s.len() == 0 {
        Seq::empty()
    } else {
        slots_bytes(s.drop_last()) + u32_bytes(s.last().slot as u32) + seq![s.last().sig_byte]
    }
}

pub open spec fn value_item() -> spec_fn(Seq<u8>) -> Option<(Value, Seq<u8>)> {
    |b: Seq<u8>| take_value(b)
}

/// StackFrame.GetValues: thread id, frame id, then the count and the slots.
pub fn frame_values_request(
    id: u32,
    thread_id: ThreadId,
    frame_id: FrameId,
    slots: &Vec<VariableSlot>,
) -> (p: CommandPacket)
    requires
        slots@.len() <= i32::MAX,
    ensures
        p.id == id,
        p.command_set == 16 && p.command == 1,
        p.data@ == u64_bytes(thread_id) + u64_bytes(frame_id) + u32_bytes(slots@.len() as u32)
            + slots_bytes(slots@),
{
    let mut packet = CommandPacket::new(id, command_sets::STACK_FRAME, stack_frame_commands::GET_VALUES);
    write_u64(&mut packet.data, thread_id);
    write_u64(&mut packet.data, frame_id);
    write_i32(&mut packet.data, slots.len() as i32);
    let ghost head = packet.data@;
    let mut i: usize = 0;
    while i < slots.len()
        invariant
            i <= slots@.len(),
            packet.id == id,
            packet.command_set == 16 && packet.command == 1,
            head == u64_bytes(thread_id) + u64_bytes(frame_id) + u32_bytes(slots@.len() as u32),
            packet.data@ == head + slots_bytes(slots@.take(i as int)),
        decreases slots@.len() - i,
    {
        write_i32(&mut packet.data, slots[i].slot);
        write_u8(&mut packet.data, slots[i].sig_byte);
        assert(slots@.take(i + 1).drop_last() =~= slots@.take(i as int));
        assert(packet.data@ =~= head + slots_bytes(slots@.take(i + 1)));
        i = i + 1;
    }
    assert(slots@.take(i as int) =~= slots@);
    packet
}

/// Parse a reply that holds a count and then that many tagged values, as
/// StackFrame.GetValues and ObjectReference.GetValues do.
pub fn parse_values_reply(reply: &ReplyPacket) -> (r: JdwpResult<Vec<Value>>)
    ensures
        reply_decoded_seq(r, reply@, counted_items(reply.data@, value_item())),
{
    reply.check_error()?;
    let mut data = reply.data();
    let count = read_i32(&mut data)?;
    let ghost start = data@;
    let ghost n = count_of(count);
    let mut values: Vec<Value> = Vec::new();
    let mut i: i32 = 0;
    while i < count
        invariant
            0 <= i,
            i <= count || count < 0 && i == 0,
            n == count_of(count),
            reply.error_code == 0,
            take_i32(reply.data@) == Some((count, start)),
            take_n(start, i as nat, value_item()) == Some((values@, data@)),
        decreases count - i,
    {
        let ghost before = data@;
        match read_value(&mut data) {
            Ok(x) => {
                values.push(x);
                i = i + 1;
            },
            Err(e) => {
                proof {
                    assert(value_item()(before) is None);
                    assert(take_n(start, (i + 1) as nat, value_item()) is None);
                    lemma_take_n_fails_on(start, (i + 1) as nat, n, value_item());
                }
                return Err(e);
            },
        }
    }
    Ok(values)
}

} // verus!
