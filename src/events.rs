//! Events: the composite packets that the peer sends on its own, and the
//! modifiers that an event request can carry.

use vstd::prelude::*;
use crate::protocol::{JdwpResult, decoded, decoded_view, is_protocol_error};
use crate::reader::{
    count_of, first, read_i32, read_string, read_u64, read_u8, rest_after, take_i32, take_string,
    take_u64, take_u8,
};
use crate::types::{Location, ObjectId, ReferenceTypeId, ThreadId, FieldId, take_location};

verus! {

/// Composite event packet (can contain multiple events)
#[derive(Debug, Clone)]
pub struct EventSet {
    pub suspend_policy: u8,
    pub events: Vec<Event>,
}

/// Single event within an event set
#[derive(Debug, Clone)]
pub struct Event {
    pub kind: u8,
    pub request_id: i32,
    pub details: EventKind,
}

#[derive(Debug, Clone)]
pub enum EventKind {
    VMStart { thread: ThreadId },
    VMDeath,
    ThreadStart { thread: ThreadId },
    ThreadDeath { thread: ThreadId },
    ClassPrepare { thread: ThreadId, ref_type: ReferenceTypeId, signature: String, status: i32 },
    Breakpoint { thread: ThreadId, location: Location },
    Step { thread: ThreadId, location: Location },
    Exception {
        thread: ThreadId,
        location: Location,
        exception: ObjectId,
        catch_location: Option<Location>,
    },
    MethodEntry { thread: ThreadId, location: Location },
    MethodExit { thread: ThreadId, location: Location },
    /// A kind whose fields are not known; the rest of its composite is dropped.
    Unknown { kind: u8 },
}

pub struct EventSetView {
    pub suspend_policy: u8,
    pub events: Seq<EventView>,
}

pub struct EventView {
    pub kind: u8,
    pub request_id: i32,
    pub details: EventKindView,
}

pub enum EventKindView {
    VMStart { thread: ThreadId },
    VMDeath,
    ThreadStart { thread: ThreadId },
    ThreadDeath { thread: ThreadId },
    ClassPrepare { thread: ThreadId, ref_type: ReferenceTypeId, signature: Seq<char>, status: i32 },
    Breakpoint { thread: ThreadId, location: Location },
    Step { thread: ThreadId, location: Location },
    Exception {
        thread: ThreadId,
        location: Location,
        exception: ObjectId,
        catch_location: Option<Location>,
    },
    MethodEntry { thread: ThreadId, location: Location },
    MethodExit { thread: ThreadId, location: Location },
    Unknown { kind: u8 },
}

impl View for EventKind {
    type V = EventKindView;

    open spec fn view(&self) -> EventKindView {
        match self {
            EventKind::VMStart { thread } => EventKindView::VMStart { thread: *thread },
            EventKind::VMDeath => EventKindView::VMDeath,
            EventKind::ThreadStart { thread } => EventKindView::ThreadStart { thread: *thread },
            EventKind::ThreadDeath { thread } => EventKindView::ThreadDeath { thread: *thread },
            EventKind::ClassPrepare { thread, ref_type, signature, status } => EventKindView::ClassPrepare {
                thread: *thread,
                ref_type: *ref_type,
                signature: signature@,
                status: *status,
            },
            EventKind::Breakpoint { thread, location } => EventKindView::Breakpoint {
                thread: *thread,
                location: *location,
            },
            EventKind::Step { thread, location } => EventKindView::Step {
                thread: *thread,
                location: *location,
            },
            EventKind::Exception { thread, location, exception, catch_location } => EventKindView::Exception {
                thread: *thread,
                location: *location,
                exception: *exception,
                catch_location: *catch_location,
            },
            EventKind::MethodEntry { thread, location } => EventKindView::MethodEntry {
                thread: *thread,
                location: *location,
            },
            EventKind::MethodExit { thread, location } => EventKindView::MethodExit {
                thread: *thread,
                location: *location,
            },
            EventKind::Unknown { kind } => EventKindView::Unknown { kind: *kind },
        }
    }
}

impl View for Event {
    type V = EventView;

    open spec fn view(&self) -> EventView {
        EventView { kind: self.kind, request_id: self.request_id, details: self.details@ }
    }
}

impl View for EventSet {
    type V = EventSetView;

    open spec fn view(&self) -> EventSetView {
        EventSetView {
            suspend_policy: self.suspend_policy,
            events: self.events@.map_values(|e: Event| e@),
        }
    }
}

// Event request modifiers
#[derive(Debug, Clone)]
pub enum EventModifier {
    Count(i32),
    ThreadOnly(ThreadId),
    ClassOnly(ReferenceTypeId),
    ClassMatch(String),
    ClassExclude(String),
    LocationOnly(Location),
    ExceptionOnly { ref_type: ReferenceTypeId, caught: bool, uncaught: bool },
    FieldOnly { ref_type: ReferenceTypeId, field_id: FieldId },
    Step { thread: ThreadId, size: i32, depth: i32 },
    InstanceOnly(ObjectId),
}

/// A thread id, then a location.
pub open spec fn take_thread_location(b: Seq<u8>) -> Option<(ThreadId, Location, Seq<u8>)> {
    match take_u64(b) {
        Some((thread, b1)) => match take_location(b1) {
            Some((location, b2)) => Some((thread, location, b2)),
            None => None,
        },
        None => None,
    }
}

/// The catch location of an exception event: a location whose class id is 0
/// stands for an exception that nothing catches.
pub open spec fn catch_of(l: Location) -> Option<Location> {
    if l.class_id == 0 {
        None
    } else {
        Some(l)
    }
}

/// The fields that follow the kind byte and request id of an event.
pub open spec fn take_details(kind: u8, b: Seq<u8>) -> Option<(EventKindView, Seq<u8>)> {
    if kind == 90 || kind == 6 || kind == 7 {
        match take_u64(b) {
            Some((thread, b1)) => Some(
                (
                    if kind == 90 {
                        EventKindView::VMStart { thread }
                    } else if kind == 6 {
                        EventKindView::ThreadStart { thread }
                    } else {
                        EventKindView::ThreadDeath { thread }
                    },
                    b1,
                ),
            ),
            None => None,
        }
    } else if kind == 99 {
        Some((EventKindView::VMDeath, b))
    } else if kind == 8 {
        match take_u64(b) {
            Some((thread, b1)) => match take_u64(b1) {
                Some((ref_type, b2)) => match take_string(b2) {
                    Some((signature, b3)) => match take_i32(b3) {
                        Some((status, b4)) => Some(
                            (EventKindView::ClassPrepare { thread, ref_type, signature, status }, b4),
                        ),
                        None => None,
                    },
                    None => None,
                },
                None => None,
            },
            None => None,
        }
    } else if kind == 2 || kind == 1 || kind == 40 || kind == 41 {
        match take_thread_location(b) {
            Some((thread, location, b1)) => Some(
                (
                    if kind == 2 {
                        EventKindView::Breakpoint { thread, location }
                    } else if kind == 1 {
                        EventKindView::Step { thread, location }
                    } else if kind == 40 {
                        EventKindView::MethodEntry { thread, location }
                    } else {
                        EventKindView::MethodExit { thread, location }
                    },
                    b1,
                ),
            ),
            None => None,
        }
    } else if kind == 4 {
        match take_thread_location(b) {
            Some((thread, location, b1)) => match take_u64(b1) {
                Some((exception, b2)) => match take_location(b2) {
                    Some((catch, b3)) => Some(
                        (
                            EventKindView::Exception {
                                thread,
                                location,
                                exception,
                                catch_location: catch_of(catch),
                            },
                            b3,
                        ),
                    ),
                    None => None,
                },
                None => None,
            },
            None => None,
        }
    } else {
        Some((EventKindView::Unknown { kind }, b))
    }
}

/// One event: kind byte, request id, then the fields of its kind.
pub open spec fn take_event(b: Seq<u8>) -> Option<(EventView, Seq<u8>)> {
    match take_u8(b) {
        Some((kind, b1)) => match take_i32(b1) {
            Some((request_id, b2)) => match take_details(kind, b2) {
                Some((details, b3)) => Some((EventView { kind, request_id, details }, b3)),
                None => None,
            },
            None => None,
        },
        None => None,
    }
}

/// The first `n` events of a composite, the bytes after them, and whether an
/// unknown kind has ended the parse; events after an unknown kind are not read.
pub open spec fn take_events(b: Seq<u8>, n: nat) -> Option<(Seq<EventView>, Seq<u8>, bool)>
    decreases n,
{
    if n == 0 {
        Some((Seq::empty(), b, false))
    } else {
        match take_events(b, (n - 1) as nat) {
            Some((xs, r, true)) => Some((xs, r, true)),
            Some((xs, r, false)) => match take_event(r) {
                Some((e, r2)) => Some((xs.push(e), r2, e.details is Unknown)),
                None => None,
            },
            None => None,
        }
    }
}

/// A composite's payload: suspend policy, a count, then the events.
pub open spec fn event_set_of(b: Seq<u8>) -> Option<EventSetView> {
    match take_u8(b) {
        Some((suspend_policy, b1)) => match take_i32(b1) {
            Some((c, b2)) => match take_events(b2, count_of(c)) {
                Some((events, _, _)) => Some(EventSetView { suspend_policy, events }),
                None => None,
            },
            None => None,
        },
        None => None,
    }
}

proof fn lemma_events_fail_on(b: Seq<u8>, i: nat, n: nat)
    requires
        i <= n,
        take_events(b, i) is None,
    ensures
        take_events(b, n) is None,
    decreases n - i,
{
    if i < n {
        lemma_events_fail_on(b, i + 1, n);
    }
}

proof fn lemma_events_stop_at(b: Seq<u8>, i: nat, n: nat)
    requires
        i <= n,
        take_events(b, i) matches Some((_, _, true)),
    ensures
        take_events(b, n) == take_events(b, i),
    decreases n - i,
{
    if i < n {
        lemma_events_stop_at(b, i + 1, n);
    }
}

/// Read a location from the buffer
pub fn read_location(buf: &mut &[u8]) -> (r: JdwpResult<Location>)
    ensures
        decoded(r, first(take_location(old(buf)@))),
        r is Ok ==> final(buf)@ == rest_after(take_location(old(buf)@), old(buf)@),
{
    let type_tag = read_u8(buf)?;
    let class_id = read_u64(buf)?;
    let method_id = read_u64(buf)?;
    let index = read_u64(buf)?;
    Ok(Location { type_tag, class_id, method_id, index })
}

fn read_details(kind: u8, buf: &mut &[u8]) -> (r: JdwpResult<EventKind>)
    ensures
        match take_details(kind, old(buf)@) {
            Some((d, rest)) => r matches Ok(v) && v@ == d && final(buf)@ == rest,
            None => is_protocol_error(r),
        },
{
    match kind {
        90 => Ok(EventKind::VMStart { thread: read_u64(buf)? }),
        6 => Ok(EventKind::ThreadStart { thread: read_u64(buf)? }),
        7 => Ok(EventKind::ThreadDeath { thread: read_u64(buf)? }),
        99 => Ok(EventKind::VMDeath),
        8 => {
            let thread = read_u64(buf)?;
            let ref_type = read_u64(buf)?;
            let signature = read_string(buf)?;
            let status = read_i32(buf)?;
            Ok(EventKind::ClassPrepare { thread, ref_type, signature, status })
        },
        2 | 1 | 40 | 41 => {
            let thread = read_u64(buf)?;
            let location = read_location(buf)?;
            Ok(
                match kind {
                    2 => EventKind::Breakpoint { thread, location },
                    1 => EventKind::Step { thread, location },
                    40 => EventKind::MethodEntry { thread, location },
                    _ => EventKind::MethodExit { thread, location },
                },
            )
        },
        4 => {
            let thread = read_u64(buf)?;
            let location = read_location(buf)?;
            let exception = read_u64(buf)?;
            let catch = read_location(buf)?;
            let catch_location = if catch.class_id == 0 {
                None
            } else {
                Some(catch)
            };
            Ok(EventKind::Exception { thread, location, exception, catch_location })
        },
        _ => Ok(EventKind::Unknown { kind }),
    }
}

fn read_event(buf: &mut &[u8]) -> (r: JdwpResult<Event>)
    ensures
        match take_event(old(buf)@) {
            Some((e, rest)) => r matches Ok(v) && v@ == e && final(buf)@ == rest,
            None => is_protocol_error(r),
        },
{
    let kind = read_u8(buf)?;
    let request_id = read_i32(buf)?;
    let details = read_details(kind, buf)?;
    Ok(Event { kind, request_id, details })
}

/// Parse the payload of a composite event packet. The events are read in
/// order; at the first event of an unknown kind, that event is kept and the
/// rest of the composite is dropped, since its field widths are unknown.
pub fn parse_event_packet(data: &[u8]) -> (r: JdwpResult<EventSet>)
    ensures
        decoded_view(r, event_set_of(data@)),
{
    let mut buf = data;
    let suspend_policy = read_u8(&mut buf)?;
    let event_count = read_i32(&mut buf)?;
    let ghost start = buf@;
    let ghost n = count_of(event_count);
    let mut events: Vec<Event> = Vec::new();
    let mut stopped = false;
    let mut i: i32 = 0;
    while i < event_count && !stopped
        invariant
            0 <= i,
            i <= event_count || event_count < 0 && i == 0,
            n == count_of(event_count),
            take_u8(data@) matches Some((p, b1)) && p == suspend_policy && take_i32(b1) == Some(
                (event_count, start),
            ),
            take_events(start, i as nat) == Some(
                (events@.map_values(|e: Event| e@), buf@, stopped),
            ),
        decreases event_count - i,
    {
        let ghost before = buf@;
        match read_event(&mut buf) {
            Ok(e) => {
                let ghost prev = events@.map_values(|e: Event| e@);
                let ghost ev = e@;
                stopped = e.details.is_unknown();
                events.push(e);
                assert(events@.map_values(|e: Event| e@) =~= prev.push(ev));
                i = i + 1;
            },
            Err(err) => {
                proof {
                    assert(take_events(start, (i + 1) as nat) is None);
                    lemma_events_fail_on(start, (i + 1) as nat, n);
                }
                return Err(err);
            },
        }
    }
    proof {
        if stopped {
            lemma_events_stop_at(start, i as nat, n);
        }
    }
    Ok(EventSet { suspend_policy, events })
}

impl EventKind {
    /// An event of a kind whose fields are not known.
    pub fn is_unknown(&self) -> (r: bool)
        ensures
            r == (self@ is Unknown),
    {
        match self {
            EventKind::Unknown { .. } => true,
            _ => false,
        }
    }
}

} // verus!
