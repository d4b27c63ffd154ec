//! EventRequest commands: asking the peer for events, and withdrawing the request.

use vstd::prelude::*;
use vstd::utf8::encode_utf8;
use crate::commands::{command_sets, event_commands, modifier_kinds};
use crate::events::EventModifier;
use crate::protocol::{CommandPacket, JdwpResult, ReplyPacket, reply_decoded};
use crate::reader::{
    first, read_i32, string_bytes, take_i32, u32_bytes, u64_bytes, write_i32, write_string,
    write_u64, write_u8,
};
use crate::types::Location;

verus! {

/// Suspend policy for events
#[derive(Debug, Clone, Copy, PartialEq, Eq, Structural)]
pub enum SuspendPolicy {
    /// Suspend no thread.
    NoThread,
    /// Suspend the thread that the event happened in.
    EventThread,
    /// Suspend every thread.
    All,
}

/// The wire byte of a suspend policy.
pub open spec fn policy_byte(p: SuspendPolicy) -> u8 {
    match p {
        SuspendPolicy::NoThread => 0,
        SuspendPolicy::EventThread => 1,
        SuspendPolicy::All => 2,
    }
}

impl SuspendPolicy {
    /// The wire byte of the policy.
    pub fn byte(&self) -> (r: u8)
        ensures
            r == policy_byte(*self),
    {
        match self {
            SuspendPolicy::NoThread => 0,
            SuspendPolicy::EventThread => 1,
            SuspendPolicy::All => 2,
        }
    }
}

/// A location on the wire: tag byte, type id, method id, index.
pub open spec fn location_bytes(l: Location) -> Seq<u8> {
    seq![l.type_tag] + u64_bytes(l.class_id) + u64_bytes(l.method_id) + u64_bytes(l.index)
}

pub open spec fn bool_byte(b: bool) -> u8 {
    if b {
        1
    } else {
        0
    }
}

/// A modifier on the wire: its kind byte, then its fields.
pub open spec fn modifier_bytes(m: EventModifier) -> Seq<u8> {
    match m {
        EventModifier::Count(c) => seq![1u8] + u32_bytes(c as u32),
        EventModifier::ThreadOnly(t) => seq![3u8] + u64_bytes(t),
        EventModifier::ClassOnly(r) => seq![4u8] + u64_bytes(r),
        EventModifier::ClassMatch(s) => seq![5u8] + string_bytes(s@),
        EventModifier::ClassExclude(s) => seq![6u8] + string_bytes(s@),
        EventModifier::LocationOnly(l) => seq![7u8] + location_bytes(l),
        EventModifier::ExceptionOnly { ref_type, caught, uncaught } => seq![8u8] + u64_bytes(ref_type)
            + seq![bool_byte(caught), bool_byte(uncaught)],
        EventModifier::FieldOnly { ref_type, field_id } => seq![9u8] + u64_bytes(ref_type) + u64_bytes(
            field_id,
        ),
        EventModifier::Step { thread, size, depth } => seq![10u8] + u64_bytes(thread) + u32_bytes(
            size as u32,
        ) + u32_bytes(depth as u32),
        EventModifier::InstanceOnly(o) => seq![11u8] + u64_bytes(o),
    }
}

/// The modifiers one after another.
pub open spec fn modifiers_bytes(s: Seq<EventModifier>) -> Seq<u8>
    decreases s.len(),
{
    if s.len() == 0 {
        Seq::empty()
    } else {
        modifiers_bytes(s.drop_last()) + modifier_bytes(s.last())
    }
}

/// The strings of a modifier fit a four-byte length.
pub open spec fn modifier_fits(m: EventModifier) -> bool {
    match m {
        EventModifier::ClassMatch(s) => encode_utf8(s@).len() <= u32::MAX,
        EventModifier::ClassExclude(s) => encode_utf8(s@).len() <= u32::MAX,
        _ => true,
    }
}

fn write_location(buf: &mut Vec<u8>, l: &Location)
    ensures
        final(buf)@ == old(buf)@ + location_bytes(*l),
{
    write_u8(buf, l.type_tag);
    write_u64(buf, l.class_id);
    write_u64(buf, l.method_id);
    write_u64(buf, l.index);
    assert(buf@ =~= old(buf)@ + location_bytes(*l));
}

fn write_modifier(buf: &mut Vec<u8>, m: &EventModifier)
    requires
        modifier_fits(*m),
    ensures
        final(buf)@ == old(buf)@ + modifier_bytes(*m),
{
    match m {
        EventModifier::Count(c) => {
            write_u8(buf, modifier_kinds::COUNT);
            write_i32(buf, *c);
        },
        EventModifier::ThreadOnly(t) => {
            write_u8(buf, modifier_kinds::THREAD_ONLY);
            write_u64(buf, *t);
        },
        EventModifier::ClassOnly(r) => {
            write_u8(buf, modifier_kinds::CLASS_ONLY);
            write_u64(buf, *r);
        },
        EventModifier::ClassMatch(s) => {
            write_u8(buf, modifier_kinds::CLASS_MATCH);
            write_string(buf, s.as_str());
        },
        EventModifier::ClassExclude(s) => {
            write_u8(buf, modifier_kinds::CLASS_EXCLUDE);
            write_string(buf, s.as_str());
        },
        EventModifier::LocationOnly(l) => {
            write_u8(buf, modifier_kinds::LOCATION_ONLY);
            write_location(buf, l);
        },
        EventModifier::ExceptionOnly { ref_type, caught, uncaught } => {
            write_u8(buf, modifier_kinds::EXCEPTION_ONLY);
            write_u64(buf, *ref_type);
            write_u8(buf, if *caught { 1 } else { 0 });
            write_u8(buf, if *uncaught { 1 } else { 0 });
        },
        EventModifier::FieldOnly { ref_type, field_id } => {
            write_u8(buf, modifier_kinds::FIELD_ONLY);
            write_u64(buf, *ref_type);
            write_u64(buf, *field_id);
        },
        EventModifier::Step { thread, size, depth } => {
            write_u8(buf, modifier_kinds::STEP);
            write_u64(buf, *thread);
            write_i32(buf, *size);
            write_i32(buf, *depth);
        },
        EventModifier::InstanceOnly(o) => {
            write_u8(buf, modifier_kinds::INSTANCE_ONLY);
            write_u64(buf, *o);
        },
    }
    assert(buf@ =~= old(buf)@ + modifier_bytes(*m));
}

/// EventRequest.Set: event kind, suspend policy, then the count and the modifiers.
pub fn event_set_request(
    id: u32,
    kind: u8,
    policy: SuspendPolicy,
    modifiers: &Vec<EventModifier>,
) -> (p: CommandPacket)
    requires
        modifiers@.len() <= i32::MAX,
        forall|i: int| 0 <= i < modifiers@.len() ==> modifier_fits(#[trigger] modifiers@[i]),
    ensures
        p.id == id,
        p.command_set == 15 && p.command == 1,
        p.data@ == seq![kind, policy_byte(policy)] + u32_bytes(modifiers@.len() as u32)
            + modifiers_bytes(modifiers@),
{
    let mut packet = CommandPacket::new(id, command_sets::EVENT_REQUEST, event_commands::SET);
    write_u8(&mut packet.data, kind);
    write_u8(&mut packet.data, policy.byte());
    write_i32(&mut packet.data, modifiers.len() as i32);
    let ghost head = packet.data@;
    assert(head =~= seq![kind, policy_byte(policy)] + u32_bytes(modifiers@.len() as u32));
    let mut i: usize = 0;
    while i < modifiers.len()
        invariant
            i <= modifiers@.len(),
            forall|j: int| 0 <= j < modifiers@.len() ==> modifier_fits(#[trigger] modifiers@[j]),
            packet.id == id,
            packet.command_set == 15 && packet.command == 1,
            head == seq![kind, policy_byte(policy)] + u32_bytes(modifiers@.len() as u32),
            packet.data@ == head + modifiers_bytes(modifiers@.take(i as int)),
        decreases modifiers@.len() - i,
    {
        write_modifier(&mut packet.data, &modifiers[i]);
        assert(modifiers@.take(i + 1).drop_last() =~= modifiers@.take(i as int));
        assert(packet.data@ =~= head + modifiers_bytes(modifiers@.take(i + 1)));
        i = i + 1;
    }
    assert(modifiers@.take(i as int) =~= modifiers@);
    packet
}

/// Parse an EventRequest.Set reply: the request id that the peer assigned.
pub fn parse_event_set_reply(reply: &ReplyPacket) -> (r: JdwpResult<i32>)
    ensures
        reply_decoded(r, reply@, first(take_i32(reply.data@))),
{
    reply.check_error()?;
    let mut data = reply.data();
    let request_id = read_i32(&mut data)?;
    Ok(request_id)
}

/// EventRequest.Clear: event kind and request id; its reply is empty.
pub fn event_clear_request(id: u32, kind: u8, request_id: i32) -> (p: CommandPacket)
    ensures
        p.id == id,
        p.command_set == 15 && p.command == 2,
        p.data@ == seq![kind] + u32_bytes(request_id as u32),
{
    let mut packet = CommandPacket::new(id, command_sets::EVENT_REQUEST, event_commands::CLEAR);
    write_u8(&mut packet.data, kind);
    write_i32(&mut packet.data, request_id);
    packet
}

} // verus!
