//! ReferenceType commands: the methods and the fields of a type.

use vstd::prelude::*;
use crate::commands::{command_sets, reference_type_commands};
use crate::protocol::{
    CommandPacket, JdwpResult, ReplyPacket, is_protocol_error, reply_decoded_list, views,
};
use crate::reader::{
    count_of, counted_items, lemma_take_n_fails_on, read_i32, read_string, read_u64, take_i32,
    take_n, take_string, take_u64, u64_bytes, write_u64,
};

verus! {

/// Method information
#[derive(Debug, Clone)]
pub struct MethodInfo {
    pub method_id: u64,
    pub name: String,
    pub signature: String,
    pub mod_bits: i32,
}

pub struct MethodInfoView {
    pub method_id: u64,
    pub name: Seq<char>,
    pub signature: Seq<char>,
    pub mod_bits: i32,
}

impl View for MethodInfo {
    type V = MethodInfoView;

    open spec fn view(&self) -> MethodInfoView {
        MethodInfoView {
            method_id: self.method_id,
            name: self.name@,
            signature: self.signature@,
            mod_bits: self.mod_bits,
        }
    }
}

/// One method: id, name, signature, modifier bits.
pub open spec fn take_method(b: Seq<u8>) -> Option<(MethodInfoView, Seq<u8>)> {
    match take_u64(b) {
        Some((method_id, b1)) => match take_string(b1) {
            Some((name, b2)) => match take_string(b2) {
                Some((signature, b3)) => match take_i32(b3) {
                    Some((mod_bits, b4)) => Some((MethodInfoView { method_id, name, signature, mod_bits }, b4)),
                    None => None,
                },
                None => None,
            },
            None => None,
        },
        None => None,
    }
}

pub open spec fn method_item() -> spec_fn(Seq<u8>) -> Option<(MethodInfoView, Seq<u8>)> {
    |b: Seq<u8>| take_method(b)
}

fn read_method(buf: &mut &[u8]) -> (r: JdwpResult<MethodInfo>)
    ensures
        match take_method(old(buf)@) {
            Some((m, rest)) => r matches Ok(v) && v@ == m && final(buf)@ == rest,
            None => is_protocol_error(r),
        },
{
    let method_id = read_u64(buf)?;
    let name = read_string(buf)?;
    let signature = read_string(buf)?;
    let mod_bits = read_i32(buf)?;
    Ok(MethodInfo { method_id, name, signature, mod_bits })
}

/// Field information
#[derive(Debug, Clone)]
pub struct FieldInfo {
    pub field_id: u64,
    pub name: String,
    pub signature: String,
    pub mod_bits: i32,
}

pub struct FieldInfoView {
    pub field_id: u64,
    pub name: Seq<char>,
    pub signature: Seq<char>,
    pub mod_bits: i32,
}

impl View for FieldInfo {
    type V = FieldInfoView;

    open spec fn view(&self) -> FieldInfoView {
        FieldInfoView {
            field_id: self.field_id,
            name: self.name@,
            signature: self.signature@,
            mod_bits: self.mod_bits,
        }
    }
}

/// One field: id, name, signature, modifier bits.
pub open spec fn take_field(b: Seq<u8>) -> Option<(FieldInfoView, Seq<u8>)> {
    match take_u64(b) {
        Some((field_id, b1)) => match take_string(b1) {
            Some((name, b2)) => match take_string(b2) {
                Some((signature, b3)) => match take_i32(b3) {
                    Some((mod_bits, b4)) => Some((FieldInfoView { field_id, name, signature, mod_bits }, b4)),
                    None => None,
                },
                None => None,
            },
            None => None,
        },
        None => None,
    }
}

pub open spec fn field_item() -> spec_fn(Seq<u8>) -> Option<(FieldInfoView, Seq<u8>)> {
    |b: Seq<u8>| take_field(b)
}

fn read_field(buf: &mut &[u8]) -> (r: JdwpResult<FieldInfo>)
    ensures
        match take_field(old(buf)@) {
            Some((m, rest)) => r matches Ok(v) && v@ == m && final(buf)@ == rest,
            None => is_protocol_error(r),
        },
{
    let field_id = read_u64(buf)?;
    let name = read_string(buf)?;
    let signature = read_string(buf)?;
    let mod_bits = read_i32(buf)?;
    Ok(FieldInfo { field_id, name, signature, mod_bits })
}

/// ReferenceType.Methods: the reference type id.
pub fn methods_request(id: u32, ref_type_id: u64) -> (p: CommandPacket)
    ensures
        p.id == id,
        p.command_set == 2 && p.command == 5,
        p.data@ == u64_bytes(ref_type_id),
{
    let mut packet = CommandPacket::new(id, command_sets::REFERENCE_TYPE, reference_type_commands::METHODS);
    write_u64(&mut packet.data, ref_type_id);
    packet
}

/// Parse a Methods reply: a count, then the methods.
pub fn parse_methods_reply(reply: &ReplyPacket) -> (r: JdwpResult<Vec<MethodInfo>>)
    ensures
        reply_decoded_list(r, reply@, counted_items(reply.data@, method_item())),
{
    reply.check_error()?;
    let mut data = reply.data();
    let count = read_i32(&mut data)?;
    let ghost start = data@;
    let ghost n = count_of(count);
    let mut methods: Vec<MethodInfo> = Vec::new();
    let mut i: i32 = 0;
    while i < count
        invariant
            0 <= i,
            i <= count || count < 0 && i == 0,
            n == count_of(count),
            reply.error_code == 0,
            take_i32(reply.data@) == Some((count, start)),
            take_n(start, i as nat, method_item()) == Some((views(methods@), data@)),
        decreases count - i,
    {
        let ghost before = data@;
        match read_method(&mut data) {
            Ok(x) => {
                let ghost prev = views(methods@);
                let ghost xv = x@;
                methods.push(x);
                assert(views(methods@) =~= prev.push(xv));
                i = i + 1;
            },
            Err(e) => {
                proof {
                    assert(method_item()(before) is None);
                    assert(take_n(start, (i + 1) as nat, method_item()) is None);
                    lemma_take_n_fails_on(start, (i + 1) as nat, n, method_item());
                }
                return Err(e);
            },
        }
    }
    Ok(methods)
}

/// ReferenceType.Fields: the reference type id.
pub fn fields_request(id: u32, ref_type_id: u64) -> (p: CommandPacket)
    ensures
        p.id == id,
        p.command_set == 2 && p.command == 4,
        p.data@ == u64_bytes(ref_type_id),
{
    let mut packet = CommandPacket::new(id, command_sets::REFERENCE_TYPE, reference_type_commands::FIELDS);
    write_u64(&mut packet.data, ref_type_id);
    packet
}

/// Parse a Fields reply: a count, then the fields.
pub fn parse_fields_reply(reply: &ReplyPacket) -> (r: JdwpResult<Vec<FieldInfo>>)
    ensures
        reply_decoded_list(r, reply@, counted_items(reply.data@, field_item())),
{
    reply.check_error()?;
    let mut data = reply.data();
    let count = read_i32(&mut data)?;
    let ghost start = data@;
    let ghost n = count_of(count);
    let mut fields: Vec<FieldInfo> = Vec::new();
    let mut i: i32 = 0;
    while i < count
        invariant
            0 <= i,
            i <= count || count < 0 && i == 0,
            n == count_of(count),
            reply.error_code == 0,
            take_i32(reply.data@) == Some((count, start)),
            take_n(start, i as nat, field_item()) == Some((views(fields@), data@)),
        decreases count - i,
    {
        let ghost before = data@;
        match read_field(&mut data) {
            Ok(x) => {
                let ghost prev = views(fields@);
                let ghost xv = x@;
                fields.push(x);
                assert(views(fields@) =~= prev.push(xv));
                i = i + 1;
            },
            Err(e) => {
                proof {
                    assert(field_item()(before) is None);
                    assert(take_n(start, (i + 1) as nat, field_item()) is None);
                    lemma_take_n_fails_on(start, (i + 1) as nat, n, field_item());
                }
                return Err(e);
            },
        }
    }
    Ok(fields)
}

} // verus!
