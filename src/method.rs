//! Method commands: line tables and variable tables.

use vstd::prelude::*;
use crate::commands::{command_sets, method_commands};
use crate::protocol::{
    CommandPacket, JdwpResult, ReplyPacket, is_protocol_error, reply_decoded_list,
    reply_decoded_view, views,
};
use crate::reader::{
    count_of, counted_items, lemma_take_n_fails_on, read_i32, read_string, read_u32, read_u64,
    take_i32, take_n, take_string, take_u32, take_u64, u64_bytes, write_u64,
};
use crate::types::{Variable, VariableView};

verus! {

/// Line table entry - maps source line to bytecode index
#[derive(Debug, Clone, Copy, PartialEq, Eq, Structural)]
pub struct LineTableEntry {
    /// Byte-code index.
    pub line_code_index: u64,
    /// Source line number.
    pub line_number: i32,
}

/// Complete line table for a method
#[derive(Debug, Clone)]
pub struct LineTable {
    /// Lowest byte-code index of the method.
    pub start: u64,
    /// Highest byte-code index of the method.
    pub end: u64,
    pub lines: Vec<LineTableEntry>,
}

pub struct LineTableView {
    pub start: u64,
    pub end: u64,
    pub lines: Seq<LineTableEntry>,
}

impl View for LineTable {
    type V = LineTableView;

    open spec fn view(&self) -> LineTableView {
        LineTableView { start: self.start, end: self.end, lines: self.lines@ }
    }
}

/// One line: byte-code index, line number.
pub open spec fn take_line(b: Seq<u8>) -> Option<(LineTableEntry, Seq<u8>)> {
    match take_u64(b) {
        Some((line_code_index, b1)) => match take_i32(b1) {
            Some((line_number, b2)) => Some((LineTableEntry { line_code_index, line_number }, b2)),
            None => None,
        },
        None => None,
    }
}

pub open spec fn line_item() -> spec_fn(Seq<u8>) -> Option<(LineTableEntry, Seq<u8>)> {
    |b: Seq<u8>| take_line(b)
}

/// The payload of a LineTable reply: start, end, a count, then the lines.
pub open spec fn line_table_of(b: Seq<u8>) -> Option<LineTableView> {
    match take_u64(b) {
        Some((start, b1)) => match take_u64(b1) {
            Some((end, b2)) => match counted_items(b2, line_item()) {
                Some(lines) => Some(LineTableView { start, end, lines }),
                None => None,
            },
            None => None,
        },
        None => None,
    }
}

/// One variable: code index, name, signature, length, slot.
pub open spec fn take_variable(b: Seq<u8>) -> Option<(VariableView, Seq<u8>)> {
    match take_u64(b) {
        Some((code_index, b1)) => match take_string(b1) {
            Some((name, b2)) => match take_string(b2) {
                Some((signature, b3)) => match take_u32(b3) {
                    Some((length, b4)) => match take_u32(b4) {
                        Some((slot, b5)) => Some(
                            (VariableView { code_index, name, signature, length, slot }, b5),
                        ),
                        None => None,
                    },
                    None => None,
                },
                None => None,
            },
            None => None,
        },
        None => None,
    }
}

pub open spec fn variable_item() -> spec_fn(Seq<u8>) -> Option<(VariableView, Seq<u8>)> {
    |b: Seq<u8>| take_variable(b)
}

/// The payload of a VariableTable reply: the argument count, which is
/// skipped, then a count and the variables.
pub open spec fn variables_of(b: Seq<u8>) -> Option<Seq<VariableView>> {
    match take_i32(b) {
        Some((_, b1)) => counted_items(b1, variable_item()),
        None => None,
    }
}

fn read_line(buf: &mut &[u8]) -> (r: JdwpResult<LineTableEntry>)
    ensures
        match take_line(old(buf)@) {
            Some((l, rest)) => r matches Ok(v) && v == l && final(buf)@ == rest,
            None => is_protocol_error(r),
        },
{
    let line_code_index = read_u64(buf)?;
    let line_number = read_i32(buf)?;
    Ok(LineTableEntry { line_code_index, line_number })
}

fn read_variable(buf: &mut &[u8]) -> (r: JdwpResult<Variable>)
    ensures
        match take_variable(old(buf)@) {
            Some((m, rest)) => r matches Ok(v) && v@ == m && final(buf)@ == rest,
            None => is_protocol_error(r),
        },
{
    let code_index = read_u64(buf)?;
    let name = read_string(buf)?;
    let signature = read_string(buf)?;
    let length = read_u32(buf)?;
    let slot = read_u32(buf)?;
    Ok(Variable { code_index, name, signature, length, slot })
}

/// Method.LineTable: the reference type id and the method id.
pub fn line_table_request(id: u32, ref_type_id: u64, method_id: u64) -> (p: CommandPacket)
    ensures
        p.id == id,
        p.command_set == 6 && p.command == 1,
        p.data@ == u64_bytes(ref_type_id) + u64_bytes(method_id),
{
    let mut packet = CommandPacket::new(id, command_sets::METHOD, method_commands::LINE_TABLE);
    write_u64(&mut packet.data, ref_type_id);
    write_u64(&mut packet.data, method_id);
    packet
}

/// Method.VariableTable: the reference type id and the method id.
pub fn variable_table_request(id: u32, ref_type_id: u64, method_id: u64) -> (p: CommandPacket)
    ensures
        p.id == id,
        p.command_set == 6 && p.command == 2,
        p.data@ == u64_bytes(ref_type_id) + u64_bytes(method_id),
{
    let mut packet = CommandPacket::new(id, command_sets::METHOD, method_commands::VARIABLE_TABLE);
    write_u64(&mut packet.data, ref_type_id);
    write_u64(&mut packet.data, method_id);
    packet
}

/// Parse a LineTable reply.
pub fn parse_line_table_reply(reply: &ReplyPacket) -> (r: JdwpResult<LineTable>)
    ensures
        reply_decoded_view(r, reply@, line_table_of(reply.data@)),
{
    reply.check_error()?;
    let mut data = reply.data();
    let start_index = read_u64(&mut data)?;
    let end_index = read_u64(&mut data)?;
    let ghost lead = data@;
    let count = read_i32(&mut data)?;
    let ghost start = data@;
    let ghost n = count_of(count);
    let mut lines: Vec<LineTableEntry> = Vec::new();
    let mut i: i32 = 0;
    while i < count
        invariant
            0 <= i,
            i <= count || count < 0 && i == 0,
            n == count_of(count),
            reply.error_code == 0,
            take_i32(lead) == Some((count, start)),
            take_u64(reply.data@) matches Some((s, b1)) && s == start_index && take_u64(b1) == Some((end_index, lead)),
            take_n(start, i as nat, line_item()) == Some((lines@, data@)),
        decreases count - i,
    {
        let ghost before = data@;
        match read_line(&mut data) {
            Ok(x) => {
                lines.push(x);
                i = i + 1;
            },
            Err(e) => {
                proof {
                    assert(line_item()(before) is None);
                    assert(take_n(start, (i + 1) as nat, line_item()) is None);
                    lemma_take_n_fails_on(start, (i + 1) as nat, n, line_item());
                }
                return Err(e);
            },
        }
    }
    Ok(LineTable { start: start_index, end: end_index, lines })
}

/// Parse a VariableTable reply.
pub fn parse_variable_table_reply(reply: &ReplyPacket) -> (r: JdwpResult<Vec<Variable>>)
    ensures
        reply_decoded_list(r, reply@, variables_of(reply.data@)),
{
    reply.check_error()?;
    let mut data = reply.data();
    let _arg_count = read_i32(&mut data)?;
    let ghost lead = data@;
    let count = read_i32(&mut data)?;
    let ghost start = data@;
    let ghost n = count_of(count);
    let mut variables: Vec<Variable> = Vec::new();
    let mut i: i32 = 0;
    while i < count
        invariant
            0 <= i,
            i <= count || count < 0 && i == 0,
            n == count_of(count),
            reply.error_code == 0,
            take_i32(lead) == Some((count, start)),
            take_i32(reply.data@) matches Some((_, b1)) && b1 == lead,
            take_n(start, i as nat, variable_item()) == Some((views(variables@), data@)),
        decreases count - i,
    {
        let ghost before = data@;
        match read_variable(&mut data) {
            Ok(x) => {
                let ghost prev = views(variables@);
                let ghost xv = x@;
                variables.push(x);
                assert(views(variables@) =~= prev.push(xv));
                i = i + 1;
            },
            Err(e) => {
                proof {
                    assert(variable_item()(before) is None);
                    assert(take_n(start, (i + 1) as nat, variable_item()) is None);
                    lemma_take_n_fails_on(start, (i + 1) as nat, n, variable_item());
                }
                return Err(e);
            },
        }
    }
    Ok(variables)
}

} // verus!
