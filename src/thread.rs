//! ThreadReference and thread-wide commands: frames, all threads, suspend and resume.

use vstd::prelude::*;
use crate::commands::{command_sets, thread_commands, vm_commands};
use crate::events::read_location;
use crate::protocol::{CommandPacket, JdwpResult, ReplyPacket, is_protocol_error, reply_decoded_seq};
use crate::reader::{
    count_of, counted_items, lemma_take_n_fails_on, read_i32, read_u64, take_i32, take_n, take_u64,
    u32_bytes, u64_bytes, write_i32, write_u64,
};
use crate::types::{FrameId, Location, ThreadId, take_location};

verus! {

/// Stack frame information
#[derive(Debug, Clone, Copy, PartialEq, Eq, Structural)]
pub struct Frame {
    pub frame_id: FrameId,
    pub location: Location,
}

/// One frame: frame id, then its location.
pub open spec fn take_frame(b: Seq<u8>) -> Option<(Frame, Seq<u8>)> {
    match take_u64(b) {
        Some((frame_id, b1)) => match take_location(b1) {
            Some((location, b2)) => Some((Frame { frame_id, location }, b2)),
            None => None,
        },
        None => None,
    }
}

pub open spec fn frame_item() -> spec_fn(Seq<u8>) -> Option<(Frame, Seq<u8>)> {
    |b: Seq<u8>| take_frame(b)
}

pub open spec fn thread_item() -> spec_fn(Seq<u8>) -> Option<(ThreadId, Seq<u8>)> {
    |b: Seq<u8>| take_u64(b)
}

fn read_frame(buf: &mut &[u8]) -> (r: JdwpResult<Frame>)
    ensures
        match take_frame(old(buf)@) {
            Some((f, rest)) => r matches Ok(v) && v == f && final(buf)@ == rest,
            None => is_protocol_error(r),
        },
{
    let frame_id = read_u64(buf)?;
    let location = read_location(buf)?;
    Ok(Frame { frame_id, location })
}

/// ThreadReference.Frames: thread id, first frame (0 = top), count (-1 = all).
pub fn frames_request(id: u32, thread_id: ThreadId, start_frame: i32, length: i32) -> (p: CommandPacket)
    ensures
        p.id == id,
        p.command_set == 11 && p.command == 6,
        p.data@ == u64_bytes(thread_id) + u32_bytes(start_frame as u32) + u32_bytes(length as u32),
{
    let mut packet = CommandPacket::new(id, command_sets::THREAD_REFERENCE, thread_commands::FRAMES);
    write_u64(&mut packet.data, thread_id);
    write_i32(&mut packet.data, start_frame);
    write_i32(&mut packet.data, length);
    packet
}

/// Parse a Frames reply: a count, then the frames.
pub fn parse_frames_reply(reply: &ReplyPacket) -> (r: JdwpResult<Vec<Frame>>)
    ensures
        reply_decoded_seq(r, reply@, counted_items(reply.data@, frame_item())),
{
    reply.check_error()?;
    let mut data = reply.data();
    let count = read_i32(&mut data)?;
    let ghost start = data@;
    let ghost n = count_of(count);
    let mut frames: Vec<Frame> = Vec::new();
    let mut i: i32 = 0;
    while i < count
        invariant
            0 <= i,
            i <= count || count < 0 && i == 0,
            n == count_of(count),
            reply.error_code == 0,
            take_i32(reply.data@) == Some((count, start)),
            take_n(start, i as nat, frame_item()) == Some((frames@, data@)),
        decreases count - i,
    {
        let ghost before = data@;
        match read_frame(&mut data) {
            Ok(x) => {
                frames.push(x);
                i = i + 1;
            },
            Err(e) => {
                proof {
                    assert(frame_item()(before) is None);
                    assert(take_n(start, (i + 1) as nat, frame_item()) is None);
                    lemma_take_n_fails_on(start, (i + 1) as nat, n, frame_item());
                }
                return Err(e);
            },
        }
    }
    Ok(frames)
}

/// VirtualMachine.AllThreads
pub fn all_threads_request(id: u32) -> (p: CommandPacket)
    ensures
        p.id == id,
        p.command_set == 1 && p.command == 4,
        p.data@ == Seq::<u8>::empty(),
{
    CommandPacket::new(id, command_sets::VIRTUAL_MACHINE, vm_commands::ALL_THREADS)
}

/// Parse an AllThreads reply: a count, then the thread ids.
pub fn parse_all_threads_reply(reply: &ReplyPacket) -> (r: JdwpResult<Vec<ThreadId>>)
    ensures
        reply_decoded_seq(r, reply@, counted_items(reply.data@, thread_item())),
{
    reply.check_error()?;
    let mut data = reply.data();
    let count = read_i32(&mut data)?;
    let ghost start = data@;
    let ghost n = count_of(count);
    let mut threads: Vec<ThreadId> = Vec::new();
    let mut i: i32 = 0;
    while i < count
        invariant
            0 <= i,
            i <= count || count < 0 && i == 0,
            n == count_of(count),
            reply.error_code == 0,
            take_i32(reply.data@) == Some((count, start)),
            take_n(start, i as nat, thread_item()) == Some((threads@, data@)),
        decreases count - i,
    {
        let ghost before = data@;
        match read_u64(&mut data) {
            Ok(x) => {
                threads.push(x);
                i = i + 1;
            },
            Err(e) => {
                proof {
                    assert(thread_item()(before) is None);
                    assert(take_n(start, (i + 1) as nat, thread_item()) is None);
                    lemma_take_n_fails_on(start, (i + 1) as nat, n, thread_item());
                }
                return Err(e);
            },
        }
    }
    Ok(threads)
}

/// VirtualMachine.Suspend; its reply is empty.
pub fn suspend_all_request(id: u32) -> (p: CommandPacket)
    ensures
        p.id == id,
        p.command_set == 1 && p.command == 8,
        p.data@ == Seq::<u8>::empty(),
{
    CommandPacket::new(id, command_sets::VIRTUAL_MACHINE, vm_commands::SUSPEND)
}

/// VirtualMachine.Resume; its reply is empty.
pub fn resume_all_request(id: u32) -> (p: CommandPacket)
    ensures
        p.id == id,
        p.command_set == 1 && p.command == 9,
        p.data@ == Seq::<u8>::empty(),
{
    CommandPacket::new(id, command_sets::VIRTUAL_MACHINE, vm_commands::RESUME)
}

} // verus!
