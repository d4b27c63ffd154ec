//! Packet framing: the error type, command packets going out and reply
//! packets coming in, and the header check of every packet read.

use vstd::prelude::*;
use crate::reader::{be_u16, be_u32, u32_bytes, write_u32};

verus! {

/// `std::io::Error`, carried unopened inside `JdwpError::Io`: nothing here
/// reads it.
#[verifier::external_type_specification]
#[verifier::external_body]
pub struct ExIoError(std::io::Error);

/// Everything that can go wrong on a JDWP connection.
#[derive(Debug)]
pub enum JdwpError {
    /// A socket-level failure; fatal to the connection.
    Io(std::io::Error),
    /// Malformed framing, an oversize packet, a decode underflow, bad UTF-8
    /// or an unknown value tag; fatal to the connection.
    Protocol(String),
    /// The peer did not echo the handshake token.
    InvalidHandshake,
    /// A reply carried a non-zero error code: the code and its name.
    JdwpErrorCode(u16, String),
    /// The connection has shut down.
    ConnectionClosed,
}

pub type JdwpResult<T> = Result<T, JdwpError>;

/// True when `r` failed with a protocol error.
pub open spec fn is_protocol_error<T>(r: JdwpResult<T>) -> bool {
    r matches Err(JdwpError::Protocol(_))
}

/// `r` is what a decoder owes when `want` is what the bytes hold: the value,
/// or a protocol error where the bytes do not hold one.
pub open spec fn decoded<T>(r: JdwpResult<T>, want: Option<T>) -> bool {
    match want {
        Some(v) => r matches Ok(x) && x == v,
        None => is_protocol_error(r),
    }
}

/// As `decoded`, for a value that is compared through its view.
pub open spec fn decoded_view<T: View>(r: JdwpResult<T>, want: Option<T::V>) -> bool {
    match want {
        Some(v) => r matches Ok(x) && x@ == v,
        None => is_protocol_error(r),
    }
}

/// A protocol error carrying `msg`.
pub fn protocol_error(msg: &str) -> (e: JdwpError)
    ensures
        e matches JdwpError::Protocol(m) && m@ == msg@,
{
    JdwpError::Protocol(msg.to_string())
}

/// Bytes in every packet header.
pub const HEADER_SIZE: usize = 11;

/// The flags byte of a reply packet.
pub const REPLY_FLAG: u8 = 0x80;

/// The largest packet length accepted from the peer (10 MiB).
pub const MAX_PACKET_SIZE: usize = 10 * 1024 * 1024;

/// A command going out: the header fields and the payload.
#[derive(Debug, Clone)]
pub struct CommandPacket {
    pub id: u32,
    pub command_set: u8,
    pub command: u8,
    pub data: Vec<u8>,
}

/// A reply coming in: its id, its error code and its payload.
#[derive(Debug, Clone)]
pub struct ReplyPacket {
    pub id: u32,
    pub error_code: u16,
    pub data: Vec<u8>,
}

/// What a reply packet holds, as plain values.
pub struct ReplyView {
    pub id: u32,
    pub error_code: u16,
    pub data: Seq<u8>,
}

impl View for ReplyPacket {
    type V = ReplyView;

    open spec fn view(&self) -> ReplyView {
        ReplyView { id: self.id, error_code: self.error_code, data: self.data@ }
    }
}

/// The wire form of a command: `[len][id][0x00][set][cmd][payload]`, with
/// `len = 11 + |payload|` and every integer big-endian.
pub open spec fn command_bytes(id: u32, command_set: u8, command: u8, data: Seq<u8>) -> Seq<u8> {
    u32_bytes((11 + data.len()) as u32) + u32_bytes(id) + seq![0u8, command_set, command] + data
}

/// The reply that a whole packet holds: `None` for a packet shorter than a
/// header, whose length field is out of range or differs from the packet's
/// length, or whose flags byte is not the reply flag.
pub open spec fn reply_of(b: Seq<u8>) -> Option<ReplyView> {
    if b.len() >= 11 && length_ok(be_u32(b[0], b[1], b[2], b[3])) && be_u32(b[0], b[1], b[2], b[3])
        == b.len() && b[8] == 0x80 {
        Some(
            ReplyView {
                id: be_u32(b[4], b[5], b[6], b[7]),
                error_code: be_u16(b[9], b[10]),
                data: b.skip(11),
            },
        )
    } else {
        None
    }
}

/// The name of a reply error code.
pub open spec fn error_name(code: u16) -> Seq<char> {
    match code {
        0 => "NONE"@,
        10 => "INVALID_THREAD"@,
        11 => "INVALID_THREAD_GROUP"@,
        12 => "INVALID_PRIORITY"@,
        13 => "THREAD_NOT_SUSPENDED"@,
        14 => "THREAD_SUSPENDED"@,
        20 => "INVALID_OBJECT"@,
        21 => "INVALID_CLASS"@,
        22 => "CLASS_NOT_PREPARED"@,
        23 => "INVALID_METHODID"@,
        24 => "INVALID_LOCATION"@,
        25 => "INVALID_FIELDID"@,
        30 => "INVALID_FRAMEID"@,
        31 => "NO_MORE_FRAMES"@,
        32 => "OPAQUE_FRAME"@,
        33 => "NOT_CURRENT_FRAME"@,
        34 => "TYPE_MISMATCH"@,
        35 => "INVALID_SLOT"@,
        40 => "DUPLICATE"@,
        41 => "NOT_FOUND"@,
        50 => "INVALID_MONITOR"@,
        51 => "NOT_MONITOR_OWNER"@,
        52 => "INTERRUPT"@,
        60 => "INVALID_CLASS_FORMAT"@,
        61 => "CIRCULAR_CLASS_DEFINITION"@,
        62 => "FAILS_VERIFICATION"@,
        63 => "ADD_METHOD_NOT_IMPLEMENTED"@,
        64 => "SCHEMA_CHANGE_NOT_IMPLEMENTED"@,
        65 => "INVALID_TYPESTATE"@,
        66 => "HIERARCHY_CHANGE_NOT_IMPLEMENTED"@,
        67 => "DELETE_METHOD_NOT_IMPLEMENTED"@,
        68 => "UNSUPPORTED_VERSION"@,
        69 => "NAMES_DONT_MATCH"@,
        70 => "CLASS_MODIFIERS_CHANGE_NOT_IMPLEMENTED"@,
        71 => "METHOD_MODIFIERS_CHANGE_NOT_IMPLEMENTED"@,
        99 => "NOT_IMPLEMENTED"@,
        100 => "NULL_POINTER"@,
        101 => "ABSENT_INFORMATION"@,
        102 => "INVALID_EVENT_TYPE"@,
        103 => "ILLEGAL_ARGUMENT"@,
        110 => "OUT_OF_MEMORY"@,
        111 => "ACCESS_DENIED"@,
        112 => "VM_DEAD"@,
        113 => "INTERNAL"@,
        115 => "UNATTACHED_THREAD"@,
        500 => "INVALID_TAG"@,
        502 => "ALREADY_INVOKING"@,
        503 => "INVALID_INDEX"@,
        504 => "INVALID_LENGTH"@,
        506 => "INVALID_STRING"@,
        507 => "INVALID_CLASS_LOADER"@,
        508 => "INVALID_ARRAY"@,
        509 => "TRANSPORT_LOAD"@,
        510 => "TRANSPORT_INIT"@,
        511 => "NATIVE_METHOD"@,
        512 => "INVALID_COUNT"@,
        _ => "UNKNOWN_ERROR"@,
    }
}

/// What `check_error` owes for a reply with this error code.
pub open spec fn error_checked(r: JdwpResult<()>, code: u16) -> bool {
    if code == 0 {
        r is Ok
    } else {
        error_checked_any(r, code)
    }
}

/// What a reply parser owes: the named error for a non-zero error code, else
/// the value that the payload holds, or a protocol error where it holds none.
pub open spec fn reply_decoded<T>(r: JdwpResult<T>, reply: ReplyView, want: Option<T>) -> bool {
    if reply.error_code != 0 {
        error_checked_any(r, reply.error_code)
    } else {
        decoded(r, want)
    }
}

/// As `reply_decoded`, for a value that is compared through its view.
pub open spec fn reply_decoded_view<T: View>(
    r: JdwpResult<T>,
    reply: ReplyView,
    want: Option<T::V>,
) -> bool {
    if reply.error_code != 0 {
        error_checked_any(r, reply.error_code)
    } else {
        decoded_view(r, want)
    }
}

/// The views of a sequence of values.
pub open spec fn views<T: View>(s: Seq<T>) -> Seq<T::V> {
    s.map_values(|x: T| x@)
}

/// As `reply_decoded`, for a list whose items are compared through their views.
pub open spec fn reply_decoded_list<T: View>(
    r: JdwpResult<Vec<T>>,
    reply: ReplyView,
    want: Option<Seq<T::V>>,
) -> bool {
    if reply.error_code != 0 {
        error_checked_any(r, reply.error_code)
    } else {
        match want {
            Some(v) => r matches Ok(x) && views(x@) == v,
            None => is_protocol_error(r),
        }
    }
}

/// As `reply_decoded`, for a list of plain values.
pub open spec fn reply_decoded_seq<T>(
    r: JdwpResult<Vec<T>>,
    reply: ReplyView,
    want: Option<Seq<T>>,
) -> bool {
    if reply.error_code != 0 {
        error_checked_any(r, reply.error_code)
    } else {
        match want {
            Some(v) => r matches Ok(x) && x@ == v,
            None => is_protocol_error(r),
        }
    }
}

/// `r` failed with the named error of a non-zero reply error code.
pub open spec fn error_checked_any<T>(r: JdwpResult<T>, code: u16) -> bool {
    r matches Err(JdwpError::JdwpErrorCode(c, m)) && c == code && m@ == error_name(code)
}

impl CommandPacket {
    pub fn new(id: u32, command_set: u8, command: u8) -> (r: Self)
        ensures
            r.id == id,
            r.command_set == command_set,
            r.command == command,
            r.data@ == Seq::<u8>::empty(),
    {
        CommandPacket { id, command_set, command, data: Vec::new() }
    }

    /// The packet as it goes on the wire.
    pub fn encode(&self) -> (r: Vec<u8>)
        requires
            self.data@.len() + 11 <= u32::MAX,
        ensures
            r@ == command_bytes(self.id, self.command_set, self.command, self.data@),
    {
        let length = HEADER_SIZE + self.data.len();
        let mut buf: Vec<u8> = Vec::new();
        write_u32(&mut buf, length as u32);
        write_u32(&mut buf, self.id);
        buf.push(0x00);
        buf.push(self.command_set);
        buf.push(self.command);
        buf.extend_from_slice(self.data.as_slice());
        assert(buf@ =~= command_bytes(self.id, self.command_set, self.command, self.data@));
        buf
    }
}

impl ReplyPacket {
    /// Decode a whole reply packet, header included: its length field must
    /// lie between 11 and 10 MiB and equal the packet's length.
    pub fn decode(buf: &[u8]) -> (r: JdwpResult<Self>)
        ensures
            decoded_view(r, reply_of(buf@)),
    {
        if buf.len() < HEADER_SIZE {
            return Err(protocol_error("Reply packet too short"));
        }
        let length = ((buf[0] as u32) << 24u32) | ((buf[1] as u32) << 16u32) | ((buf[2] as u32)
            << 8u32) | (buf[3] as u32);
        if (length as usize) < HEADER_SIZE || (length as usize) > MAX_PACKET_SIZE {
            return Err(protocol_error("Invalid reply length"));
        }
        if length as usize != buf.len() {
            return Err(protocol_error("Reply length does not match the packet"));
        }
        let id = ((buf[4] as u32) << 24u32) | ((buf[5] as u32) << 16u32) | ((buf[6] as u32)
            << 8u32) | (buf[7] as u32);
        let flags = buf[8];
        if flags != REPLY_FLAG {
            return Err(protocol_error("Invalid reply flag"));
        }
        let error_code = ((buf[9] as u16) << 8u16) | (buf[10] as u16);
        let data = vstd::slice::slice_to_vec(vstd::slice::slice_subrange(buf, 11, buf.len()));
        assert(data@ =~= buf@.skip(11));
        Ok(ReplyPacket { id, error_code, data })
    }

    pub fn is_error(&self) -> (r: bool)
        ensures
            r == (self.error_code != 0),
    {
        self.error_code != 0
    }

    /// `Ok` for error code 0, else the code with its name.
    pub fn check_error(&self) -> (r: JdwpResult<()>)
        ensures
            error_checked(r, self.error_code),
    {
        if self.is_error() {
            Err(JdwpError::JdwpErrorCode(self.error_code, self.error_message().to_string()))
        } else {
            Ok(())
        }
    }

    pub fn data(&self) -> (r: &[u8])
        ensures
            r@ == self.data@,
    {
        self.data.as_slice()
    }

    /// The name of this reply's error code.
    pub fn error_message(&self) -> (r: &'static str)
        ensures
            r@ == error_name(self.error_code),
    {
        match self.error_code {
            0 => "NONE",
            10 => "INVALID_THREAD",
            11 => "INVALID_THREAD_GROUP",
            12 => "INVALID_PRIORITY",
            13 => "THREAD_NOT_SUSPENDED",
            14 => "THREAD_SUSPENDED",
            20 => "INVALID_OBJECT",
            21 => "INVALID_CLASS",
            22 => "CLASS_NOT_PREPARED",
            23 => "INVALID_METHODID",
            24 => "INVALID_LOCATION",
            25 => "INVALID_FIELDID",
            30 => "INVALID_FRAMEID",
            31 => "NO_MORE_FRAMES",
            32 => "OPAQUE_FRAME",
            33 => "NOT_CURRENT_FRAME",
            34 => "TYPE_MISMATCH",
            35 => "INVALID_SLOT",
            40 => "DUPLICATE",
            41 => "NOT_FOUND",
            50 => "INVALID_MONITOR",
            51 => "NOT_MONITOR_OWNER",
            52 => "INTERRUPT",
            60 => "INVALID_CLASS_FORMAT",
            61 => "CIRCULAR_CLASS_DEFINITION",
            62 => "FAILS_VERIFICATION",
            63 => "ADD_METHOD_NOT_IMPLEMENTED",
            64 => "SCHEMA_CHANGE_NOT_IMPLEMENTED",
            65 => "INVALID_TYPESTATE",
            66 => "HIERARCHY_CHANGE_NOT_IMPLEMENTED",
            67 => "DELETE_METHOD_NOT_IMPLEMENTED",
            68 => "UNSUPPORTED_VERSION",
            69 => "NAMES_DONT_MATCH",
            70 => "CLASS_MODIFIERS_CHANGE_NOT_IMPLEMENTED",
            71 => "METHOD_MODIFIERS_CHANGE_NOT_IMPLEMENTED",
            99 => "NOT_IMPLEMENTED",
            100 => "NULL_POINTER",
            101 => "ABSENT_INFORMATION",
            102 => "INVALID_EVENT_TYPE",
            103 => "ILLEGAL_ARGUMENT",
            110 => "OUT_OF_MEMORY",
            111 => "ACCESS_DENIED",
            112 => "VM_DEAD",
            113 => "INTERNAL",
            115 => "UNATTACHED_THREAD",
            500 => "INVALID_TAG",
            502 => "ALREADY_INVOKING",
            503 => "INVALID_INDEX",
            504 => "INVALID_LENGTH",
            506 => "INVALID_STRING",
            507 => "INVALID_CLASS_LOADER",
            508 => "INVALID_ARRAY",
            509 => "TRANSPORT_LOAD",
            510 => "TRANSPORT_INIT",
            511 => "NATIVE_METHOD",
            512 => "INVALID_COUNT",
            _ => "UNKNOWN_ERROR",
        }
    }
}


/// The header fields of a packet read from the peer.
#[derive(Debug, Clone, Copy, PartialEq, Eq)]
pub struct PacketHeader {
    /// Total length, header included.
    pub length: u32,
    pub id: u32,
    pub flags: u8,
}

/// The length field of a header is in range.
pub open spec fn length_ok(length: u32) -> bool {
    11 <= length <= 10 * 1024 * 1024
}

/// The header at the front of `b`, whatever its length field says.
pub open spec fn header_of(b: Seq<u8>) -> PacketHeader
    recommends
        b.len() >= 11,
{
    PacketHeader { length: be_u32(b[0], b[1], b[2], b[3]), id: be_u32(b[4], b[5], b[6], b[7]), flags: b[8] }
}

impl PacketHeader {
    /// The bytes that follow the header.
    pub fn body_len(&self) -> (r: usize)
        requires
            length_ok(self.length),
        ensures
            r == self.length - 11,
    {
        self.length as usize - HEADER_SIZE
    }

    /// A reply, rather than a command from the peer.
    pub fn is_reply(&self) -> (r: bool)
        ensures
            r == (self.flags == 0x80),
    {
        self.flags == REPLY_FLAG
    }
}

/// Check the header at the front of `header`: its length field must lie
/// between 11 and 10 MiB.
pub fn parse_header(header: &[u8]) -> (r: JdwpResult<PacketHeader>)
    ensures
        header@.len() < 11 ==> is_protocol_error(r),
        header@.len() >= 11 ==> decoded(
            r,
            if length_ok(header_of(header@).length) {
                Some(header_of(header@))
            } else {
                None
            },
        ),
{
    if header.len() < HEADER_SIZE {
        return Err(protocol_error("Packet header too short"));
    }
    let length = ((header[0] as u32) << 24u32) | ((header[1] as u32) << 16u32) | ((header[2] as u32)
        << 8u32) | (header[3] as u32);
    let id = ((header[4] as u32) << 24u32) | ((header[5] as u32) << 16u32) | ((header[6] as u32)
        << 8u32) | (header[7] as u32);
    let flags = header[8];
    if (length as usize) < HEADER_SIZE {
        return Err(protocol_error("Invalid packet length"));
    }
    if (length as usize) > MAX_PACKET_SIZE {
        return Err(protocol_error("Packet too large"));
    }
    Ok(PacketHeader { length, id, flags })
}

/// The handshake token, `JDWP-Handshake` in ASCII.
pub open spec fn handshake_spec() -> Seq<u8> {
    seq![74u8, 68, 87, 80, 45, 72, 97, 110, 100, 115, 104, 97, 107, 101]
}

/// The bytes sent to the peer before any packet.
pub fn handshake_token() -> (r: Vec<u8>)
    ensures
        r@ == handshake_spec(),
{
    let r: Vec<u8> = vec![74u8, 68, 87, 80, 45, 72, 97, 110, 100, 115, 104, 97, 107, 101];
    assert(r@ =~= handshake_spec());
    r
}

/// Check what the peer sent back for the handshake: it must be the token.
pub fn check_handshake(reply: &[u8]) -> (r: JdwpResult<()>)
    ensures
        r is Ok <==> reply@ == handshake_spec(),
        r is Err ==> r matches Err(JdwpError::InvalidHandshake),
{
    let token = handshake_token();
    if reply.len() != token.len() {
        return Err(JdwpError::InvalidHandshake);
    }
    let mut i: usize = 0;
    while i < token.len()
        invariant
            token@ == handshake_spec(),
            reply@.len() == token@.len(),
            i <= token@.len(),
            forall|j: int| 0 <= j < i ==> reply@[j] == token@[j],
        decreases token@.len() - i,
    {
        if reply[i] != token[i] {
            return Err(JdwpError::InvalidHandshake);
        }
        i = i + 1;
    }
    assert(reply@ =~= handshake_spec());
    Ok(())
}

/// Encoding depends on the packet's fields alone: two packets with the same
/// fields give the same bytes, and those bytes carry the length, the id, the
/// command flag, the command set and the command at their fixed offsets.
pub proof fn lemma_encode_deterministic(p: CommandPacket, q: CommandPacket)
    requires
        p.id == q.id,
        p.command_set == q.command_set,
        p.command == q.command,
        p.data@ == q.data@,
        p.data@.len() + 11 <= u32::MAX,
    ensures
        command_bytes(p.id, p.command_set, p.command, p.data@) == command_bytes(
            q.id,
            q.command_set,
            q.command,
            q.data@,
        ),
        header_of(command_bytes(p.id, p.command_set, p.command, p.data@)) == (PacketHeader {
            length: (11 + p.data@.len()) as u32,
            id: p.id,
            flags: 0,
        }),
        command_bytes(p.id, p.command_set, p.command, p.data@)[9] == p.command_set,
        command_bytes(p.id, p.command_set, p.command, p.data@)[10] == p.command,
        command_bytes(p.id, p.command_set, p.command, p.data@).skip(11) == p.data@,
{
    let b = command_bytes(p.id, p.command_set, p.command, p.data@);
    let len = (11 + p.data@.len()) as u32;
    crate::reader::lemma_scalar_round_trip(b.skip(4), 0, 0, len, 0, 0, 0, 0, 0);
    crate::reader::lemma_scalar_round_trip(b.skip(8), 0, 0, p.id, 0, 0, 0, 0, 0);
    assert(b.skip(4) =~= u32_bytes(p.id) + seq![0u8, p.command_set, p.command] + p.data@);
    assert(b =~= u32_bytes(len) + b.skip(4));
    assert(b.skip(4) =~= u32_bytes(p.id) + b.skip(8));
    assert(b.skip(11) =~= p.data@);
}

} // verus!
