//! The values that travel in command and event payloads: identifiers,
//! locations, tagged values and variable descriptions.

use vstd::prelude::*;
use crate::protocol::{JdwpResult, decoded, protocol_error};
use crate::reader::{
    first, read_i16, read_i32, read_i64, read_i8, read_u16, read_u32, read_u64, read_u8,
    rest_after, take_i16, take_i32, take_i64, take_i8, take_u16, take_u32, take_u64, take_u8,
};

verus! {

// Object IDs are 8 bytes in JDWP
pub type ObjectId = u64;

pub type ThreadId = ObjectId;

pub type ThreadGroupId = ObjectId;

pub type StringId = ObjectId;

pub type ClassLoaderId = ObjectId;

pub type ClassObjectId = ObjectId;

pub type ArrayId = ObjectId;

pub type ReferenceTypeId = u64;

pub type ClassId = ReferenceTypeId;

pub type InterfaceId = ReferenceTypeId;

pub type ArrayTypeId = ReferenceTypeId;

pub type MethodId = u64;

pub type FieldId = u64;

pub type FrameId = u64;

/// A code position.
#[derive(Debug, Clone, Copy, PartialEq, Eq, Structural)]
pub struct Location {
    /// 1 = class, 2 = interface, 3 = array
    pub type_tag: u8,
    pub class_id: ReferenceTypeId,
    pub method_id: MethodId,
    /// Byte-code index.
    pub index: u64,
}

/// A location: tag byte, then type id, method id and index of eight bytes each.
pub open spec fn take_location(b: Seq<u8>) -> Option<(Location, Seq<u8>)> {
    match take_u8(b) {
        Some((type_tag, b1)) => match take_u64(b1) {
            Some((class_id, b2)) => match take_u64(b2) {
                Some((method_id, b3)) => match take_u64(b3) {
                    Some((index, b4)) => Some((Location { type_tag, class_id, method_id, index }, b4)),
                    None => None,
                },
                None => None,
            },
            None => None,
        },
        None => None,
    }
}

/// Thread status values
#[derive(Debug, Clone, Copy, PartialEq, Eq, Structural)]
pub enum ThreadStatus {
    Zombie,
    Running,
    Sleeping,
    Monitor,
    Wait,
}

impl ThreadStatus {
    /// The status that a wire code names.
    pub fn from_code(code: u32) -> (r: Option<ThreadStatus>)
        ensures
            r is Some <==> code <= 4,
            r matches Some(s) ==> s.code() == code,
    {
        match code {
            0 => Some(ThreadStatus::Zombie),
            1 => Some(ThreadStatus::Running),
            2 => Some(ThreadStatus::Sleeping),
            3 => Some(ThreadStatus::Monitor),
            4 => Some(ThreadStatus::Wait),
            _ => None,
        }
    }

    /// The wire code of the status.
    pub open spec fn code(&self) -> u32 {
        match self {
            ThreadStatus::Zombie => 0,
            ThreadStatus::Running => 1,
            ThreadStatus::Sleeping => 2,
            ThreadStatus::Monitor => 3,
            ThreadStatus::Wait => 4,
        }
    }
}

/// Suspend status values
#[derive(Debug, Clone, Copy, PartialEq, Eq, Structural)]
pub enum SuspendStatus {
    Running,
    Suspended,
}

impl SuspendStatus {
    /// The status that a wire code names.
    pub fn from_code(code: u32) -> (r: Option<SuspendStatus>)
        ensures
            code == 0 ==> r == Some(SuspendStatus::Running),
            code == 1 ==> r == Some(SuspendStatus::Suspended),
            code > 1 ==> r is None,
    {
        match code {
            0 => Some(SuspendStatus::Running),
            1 => Some(SuspendStatus::Suspended),
            _ => None,
        }
    }
}

/// Type tags for values
#[derive(Debug, Clone, Copy, PartialEq, Eq, Structural)]
pub enum TypeTag {
    Array,
    Byte,
    Char,
    Object,
    Float,
    Double,
    Int,
    Long,
    Short,
    Void,
    Boolean,
    String,
    Thread,
    ThreadGroup,
    ClassLoader,
    ClassObject,
}

/// The ASCII byte of each value tag.
pub open spec fn tag_byte(t: TypeTag) -> u8 {
    match t {
        TypeTag::Array => 91,
        TypeTag::Byte => 66,
        TypeTag::Char => 67,
        TypeTag::Object => 76,
        TypeTag::Float => 70,
        TypeTag::Double => 68,
        TypeTag::Int => 73,
        TypeTag::Long => 74,
        TypeTag::Short => 83,
        TypeTag::Void => 86,
        TypeTag::Boolean => 90,
        TypeTag::String => 115,
        TypeTag::Thread => 116,
        TypeTag::ThreadGroup => 103,
        TypeTag::ClassLoader => 108,
        TypeTag::ClassObject => 99,
    }
}

impl TypeTag {
    /// The tag that an ASCII byte names, if any.
    pub fn from_byte(b: u8) -> (r: Option<TypeTag>)
        ensures
            r matches Some(t) ==> tag_byte(t) == b,
            r is None ==> forall|t: TypeTag| tag_byte(t) != b,
    {
        match b {
            91 => Some(TypeTag::Array),
            66 => Some(TypeTag::Byte),
            67 => Some(TypeTag::Char),
            76 => Some(TypeTag::Object),
            70 => Some(TypeTag::Float),
            68 => Some(TypeTag::Double),
            73 => Some(TypeTag::Int),
            74 => Some(TypeTag::Long),
            83 => Some(TypeTag::Short),
            86 => Some(TypeTag::Void),
            90 => Some(TypeTag::Boolean),
            115 => Some(TypeTag::String),
            116 => Some(TypeTag::Thread),
            103 => Some(TypeTag::ThreadGroup),
            108 => Some(TypeTag::ClassLoader),
            99 => Some(TypeTag::ClassObject),
            _ => None,
        }
    }

    /// The ASCII byte of the tag.
    pub fn byte(&self) -> (r: u8)
        ensures
            r == tag_byte(*self),
    {
        match self {
            TypeTag::Array => 91,
            TypeTag::Byte => 66,
            TypeTag::Char => 67,
            TypeTag::Object => 76,
            TypeTag::Float => 70,
            TypeTag::Double => 68,
            TypeTag::Int => 73,
            TypeTag::Long => 74,
            TypeTag::Short => 83,
            TypeTag::Void => 86,
            TypeTag::Boolean => 90,
            TypeTag::String => 115,
            TypeTag::Thread => 116,
            TypeTag::ThreadGroup => 103,
            TypeTag::ClassLoader => 108,
            TypeTag::ClassObject => 99,
        }
    }
}

/// Tagged value
#[derive(Debug, Clone, Copy, PartialEq, Eq, Structural)]
pub struct Value {
    pub tag: u8,
    pub data: ValueData,
}

/// The datum of a tagged value. Floating-point values are kept as their
/// IEEE-754 bit patterns, exactly as they travel.
#[derive(Debug, Clone, Copy, PartialEq, Eq, Structural)]
pub enum ValueData {
    Byte(i8),
    Char(u16),
    /// The bits of an `f32`.
    Float(u32),
    /// The bits of an `f64`.
    Double(u64),
    Int(i32),
    Long(i64),
    Short(i16),
    Boolean(bool),
    Object(ObjectId),
    Void,
}

/// The datum that follows a value tag: its width comes from the tag, and an
/// unknown tag holds none.
pub open spec fn take_value_data(tag: u8, b: Seq<u8>) -> Option<(ValueData, Seq<u8>)> {
    if tag == 66 {
        match take_i8(b) {
            Some((v, r)) => Some((ValueData::Byte(v), r)),
            None => None,
        }
    } else if tag == 67 {
        match take_u16(b) {
            Some((v, r)) => Some((ValueData::Char(v), r)),
            None => None,
        }
    } else if tag == 68 {
        match take_u64(b) {
            Some((v, r)) => Some((ValueData::Double(v), r)),
            None => None,
        }
    } else if tag == 70 {
        match take_u32(b) {
            Some((v, r)) => Some((ValueData::Float(v), r)),
            None => None,
        }
    } else if tag == 73 {
        match take_i32(b) {
            Some((v, r)) => Some((ValueData::Int(v), r)),
            None => None,
        }
    } else if tag == 74 {
        match take_i64(b) {
            Some((v, r)) => Some((ValueData::Long(v), r)),
            None => None,
        }
    } else if tag == 83 {
        match take_i16(b) {
            Some((v, r)) => Some((ValueData::Short(v), r)),
            None => None,
        }
    } else if tag == 90 {
        match take_u8(b) {
            Some((v, r)) => Some((ValueData::Boolean(v != 0), r)),
            None => None,
        }
    } else if tag == 86 {
        Some((ValueData::Void, b))
    } else if tag == 76 || tag == 115 || tag == 116 || tag == 103 || tag == 108 || tag == 99 || tag
        == 91 {
        match take_u64(b) {
            Some((v, r)) => Some((ValueData::Object(v), r)),
            None => None,
        }
    } else {
        None
    }
}

/// A tagged value: the tag byte, then its datum.
pub open spec fn take_value(b: Seq<u8>) -> Option<(Value, Seq<u8>)> {
    match take_u8(b) {
        Some((tag, b1)) => match take_value_data(tag, b1) {
            Some((data, b2)) => Some((Value { tag, data }, b2)),
            None => None,
        },
        None => None,
    }
}

/// Read a value based on its type tag
pub fn read_value_by_tag(tag: u8, buf: &mut &[u8]) -> (r: JdwpResult<ValueData>)
    ensures
        decoded(r, first(take_value_data(tag, old(buf)@))),
        r is Ok ==> final(buf)@ == rest_after(take_value_data(tag, old(buf)@), old(buf)@),
        r is Err ==> final(buf)@ == old(buf)@,
{
    match tag {
        // 'B' = byte
        66 => Ok(ValueData::Byte(read_i8(buf)?)),
        // 'C' = char
        67 => Ok(ValueData::Char(read_u16(buf)?)),
        // 'D' = double
        68 => Ok(ValueData::Double(read_u64(buf)?)),
        // 'F' = float
        70 => Ok(ValueData::Float(read_u32(buf)?)),
        // 'I' = int
        73 => Ok(ValueData::Int(read_i32(buf)?)),
        // 'J' = long
        74 => Ok(ValueData::Long(read_i64(buf)?)),
        // 'S' = short
        83 => Ok(ValueData::Short(read_i16(buf)?)),
        // 'Z' = boolean
        90 => Ok(ValueData::Boolean(read_u8(buf)? != 0)),
        // 'V' = void
        86 => Ok(ValueData::Void),
        // Object kinds: L = object, s = string, t = thread, g = thread group,
        // l = class loader, c = class object, [ = array
        76 | 115 | 116 | 103 | 108 | 99 | 91 => Ok(ValueData::Object(read_u64(buf)?)),
        _ => Err(protocol_error("Unknown value tag")),
    }
}

/// Read a tagged value: the tag byte, then its datum.
pub fn read_value(buf: &mut &[u8]) -> (r: JdwpResult<Value>)
    ensures
        decoded(r, first(take_value(old(buf)@))),
        r is Ok ==> final(buf)@ == rest_after(take_value(old(buf)@), old(buf)@),
{
    let tag = read_u8(buf)?;
    let data = read_value_by_tag(tag, buf)?;
    Ok(Value { tag, data })
}

/// Variable information
#[derive(Debug, Clone)]
pub struct Variable {
    pub code_index: u64,
    pub name: String,
    pub signature: String,
    pub length: u32,
    pub slot: u32,
}

/// What a variable description holds, as plain values.
pub struct VariableView {
    pub code_index: u64,
    pub name: Seq<char>,
    pub signature: Seq<char>,
    pub length: u32,
    pub slot: u32,
}

impl View for Variable {
    type V = VariableView;

    open spec fn view(&self) -> VariableView {
        VariableView {
            code_index: self.code_index,
            name: self.name@,
            signature: self.signature@,
            length: self.length,
            slot: self.slot,
        }
    }
}

impl Variable {
    /// The variable is live at byte-code index `pc`: `code_index <= pc < code_index + length`.
    pub fn is_active_at(&self, pc: u64) -> (r: bool)
        ensures
            r == (self.code_index <= pc && (pc as int) < self.code_index as int + self.length as int),
    {
        pc >= self.code_index && pc - self.code_index < self.length as u64
    }
}

/// Stack frame information
#[derive(Debug, Clone, Copy, PartialEq, Eq, Structural)]
pub struct FrameInfo {
    pub frame_id: FrameId,
    pub location: Location,
}

} // verus!
