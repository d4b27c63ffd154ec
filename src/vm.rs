//! VirtualMachine commands: version, id sizes, classes by signature.

use vstd::prelude::*;
use crate::commands::{command_sets, vm_commands};
use crate::protocol::{
    CommandPacket, JdwpResult, ReplyPacket, is_protocol_error, protocol_error, reply_decoded, reply_decoded_list,
    reply_decoded_view, views,
};
use crate::reader::{
    count_of, counted_items, lemma_take_n_fails_on, read_i32, read_string, read_u64, read_u8, string_bytes,
    take_i32, take_n, take_string, take_u64, take_u8, write_string,
};
use vstd::utf8::encode_utf8;

verus! {

/// JVM version information
#[derive(Debug, Clone)]
pub struct VmVersion {
    pub description: String,
    pub jdwp_major: i32,
    pub jdwp_minor: i32,
    pub vm_version: String,
    pub vm_name: String,
}

pub struct VmVersionView {
    pub description: Seq<char>,
    pub jdwp_major: i32,
    pub jdwp_minor: i32,
    pub vm_version: Seq<char>,
    pub vm_name: Seq<char>,
}

impl View for VmVersion {
    type V = VmVersionView;

    open spec fn view(&self) -> VmVersionView {
        VmVersionView {
            description: self.description@,
            jdwp_major: self.jdwp_major,
            jdwp_minor: self.jdwp_minor,
            vm_version: self.vm_version@,
            vm_name: self.vm_name@,
        }
    }
}

/// ID sizes used by the JVM
#[derive(Debug, Clone, Copy, PartialEq, Eq, Structural)]
pub struct VmIdSizes {
    pub field_id_size: i32,
    pub method_id_size: i32,
    pub object_id_size: i32,
    pub reference_type_id_size: i32,
    pub frame_id_size: i32,
}

/// Class information from ClassesBySignature
#[derive(Debug, Clone)]
pub struct ClassInfo {
    /// 1 = class, 2 = interface, 3 = array
    pub ref_type_tag: u8,
    pub type_id: u64,
    pub signature: String,
    pub status: i32,
}

pub struct ClassInfoView {
    pub ref_type_tag: u8,
    pub type_id: u64,
    pub signature: Seq<char>,
    pub status: i32,
}

impl View for ClassInfo {
    type V = ClassInfoView;

    open spec fn view(&self) -> ClassInfoView {
        ClassInfoView {
            ref_type_tag: self.ref_type_tag,
            type_id: self.type_id,
            signature: self.signature@,
            status: self.status,
        }
    }
}

/// The payload of a Version reply: description, major, minor, version, name.
pub open spec fn version_of(b: Seq<u8>) -> Option<VmVersionView> {
    match take_string(b) {
        Some((description, b1)) => match take_i32(b1) {
            Some((jdwp_major, b2)) => match take_i32(b2) {
                Some((jdwp_minor, b3)) => match take_string(b3) {
                    Some((vm_version, b4)) => match take_string(b4) {
                        Some((vm_name, _)) => Some(
                            VmVersionView { description, jdwp_major, jdwp_minor, vm_version, vm_name },
                        ),
                        None => None,
                    },
                    None => None,
                },
                None => None,
            },
            None => None,
        },
        None => None,
    }
}

/// The payload of an IDSizes reply: five four-byte sizes.
pub open spec fn id_sizes_of(b: Seq<u8>) -> Option<VmIdSizes> {
    match take_i32(b) {
        Some((field_id_size, b1)) => match take_i32(b1) {
            Some((method_id_size, b2)) => match take_i32(b2) {
                Some((object_id_size, b3)) => match take_i32(b3) {
                    Some((reference_type_id_size, b4)) => match take_i32(b4) {
                        Some((frame_id_size, _)) => Some(
                            VmIdSizes {
                                field_id_size,
                                method_id_size,
                                object_id_size,
                                reference_type_id_size,
                                frame_id_size,
                            },
                        ),
                        None => None,
                    },
                    None => None,
                },
                None => None,
            },
            None => None,
        },
        None => None,
    }
}

/// One class of a ClassesBySignature reply: tag, type id, status; the
/// signature is the one that was asked for.
pub open spec fn take_class(signature: Seq<char>, b: Seq<u8>) -> Option<(ClassInfoView, Seq<u8>)> {
    match take_u8(b) {
        Some((ref_type_tag, b1)) => match take_u64(b1) {
            Some((type_id, b2)) => match take_i32(b2) {
                Some((status, b3)) => Some(
                    (ClassInfoView { ref_type_tag, type_id, signature, status }, b3),
                ),
                None => None,
            },
            None => None,
        },
        None => None,
    }
}

pub open spec fn class_item(signature: Seq<char>) -> spec_fn(Seq<u8>) -> Option<
    (ClassInfoView, Seq<u8>),
> {
    |b: Seq<u8>| take_class(signature, b)
}

/// The payload of a ClassesBySignature reply: a count, then the classes.
pub open spec fn classes_of(signature: Seq<char>, b: Seq<u8>) -> Option<Seq<ClassInfoView>> {
    counted_items(b, class_item(signature))
}

/// VirtualMachine.Version
pub fn version_request(id: u32) -> (p: CommandPacket)
    ensures
        p.id == id,
        p.command_set == 1 && p.command == 1,
        p.data@ == Seq::<u8>::empty(),
{
    CommandPacket::new(id, command_sets::VIRTUAL_MACHINE, vm_commands::VERSION)
}

/// VirtualMachine.IDSizes
pub fn id_sizes_request(id: u32) -> (p: CommandPacket)
    ensures
        p.id == id,
        p.command_set == 1 && p.command == 7,
        p.data@ == Seq::<u8>::empty(),
{
    CommandPacket::new(id, command_sets::VIRTUAL_MACHINE, vm_commands::ID_SIZES)
}

/// VirtualMachine.ClassesBySignature: the signature as a JDWP string.
pub fn classes_by_signature_request(id: u32, signature: &str) -> (p: CommandPacket)
    requires
        encode_utf8(signature@).len() <= u32::MAX,
    ensures
        p.id == id,
        p.command_set == 1 && p.command == 2,
        p.data@ == string_bytes(signature@),
{
    let mut packet = CommandPacket::new(
        id,
        command_sets::VIRTUAL_MACHINE,
        vm_commands::CLASSES_BY_SIGNATURE,
    );
    write_string(&mut packet.data, signature);
    packet
}

/// Parse a Version reply.
pub fn parse_version_reply(reply: &ReplyPacket) -> (r: JdwpResult<VmVersion>)
    ensures
        reply_decoded_view(r, reply@, version_of(reply.data@)),
{
    reply.check_error()?;
    let mut data = reply.data();
    let description = read_string(&mut data)?;
    let jdwp_major = read_i32(&mut data)?;
    let jdwp_minor = read_i32(&mut data)?;
    let vm_version = read_string(&mut data)?;
    let vm_name = read_string(&mut data)?;
    Ok(VmVersion { description, jdwp_major, jdwp_minor, vm_version, vm_name })
}

/// Parse an IDSizes reply.
pub fn parse_id_sizes_reply(reply: &ReplyPacket) -> (r: JdwpResult<VmIdSizes>)
    ensures
        reply_decoded(r, reply@, id_sizes_of(reply.data@)),
{
    reply.check_error()?;
    let mut data = reply.data();
    let field_id_size = read_i32(&mut data)?;
    let method_id_size = read_i32(&mut data)?;
    let object_id_size = read_i32(&mut data)?;
    let reference_type_id_size = read_i32(&mut data)?;
    let frame_id_size = read_i32(&mut data)?;
    Ok(
        VmIdSizes {
            field_id_size,
            method_id_size,
            object_id_size,
            reference_type_id_size,
            frame_id_size,
        },
    )
}

/// The id widths that this codec reads and writes: eight bytes each.
pub open spec fn id_sizes_supported(s: VmIdSizes) -> bool {
    s.field_id_size == 8 && s.method_id_size == 8 && s.object_id_size == 8
        && s.reference_type_id_size == 8 && s.frame_id_size == 8
}

/// Refuse a peer whose ids are not all eight bytes wide: every id in this
/// codec is read and written as eight bytes.
pub fn check_id_sizes(sizes: &VmIdSizes) -> (r: JdwpResult<()>)
    ensures
        r is Ok <==> id_sizes_supported(*sizes),
        r is Err ==> is_protocol_error(r),
{
    if sizes.field_id_size != 8 || sizes.method_id_size != 8 || sizes.object_id_size != 8
        || sizes.reference_type_id_size != 8 || sizes.frame_id_size != 8 {
        return Err(protocol_error("Unsupported id sizes: this client reads 8-byte ids"));
    }
    Ok(())
}

fn read_class(buf: &mut &[u8], signature: &str) -> (r: JdwpResult<ClassInfo>)
    ensures
        match take_class(signature@, old(buf)@) {
            Some((c, rest)) => r matches Ok(v) && v@ == c && final(buf)@ == rest,
            None => is_protocol_error(r),
        },
{
    let ref_type_tag = read_u8(buf)?;
    let type_id = read_u64(buf)?;
    let status = read_i32(buf)?;
    Ok(ClassInfo { ref_type_tag, type_id, signature: signature.to_string(), status })
}

/// Parse a ClassesBySignature reply; each class carries the signature asked for.
pub fn parse_classes_by_signature_reply(reply: &ReplyPacket, signature: &str) -> (r: JdwpResult<
    Vec<ClassInfo>,
>)
    ensures
        reply_decoded_list(r, reply@, classes_of(signature@, reply.data@)),
{
    reply.check_error()?;
    let mut data = reply.data();
    let count = read_i32(&mut data)?;
    let ghost start = data@;
    let ghost n = count_of(count);
    let mut classes: Vec<ClassInfo> = Vec::new();
    let mut i: i32 = 0;
    while i < count
        invariant
            0 <= i,
            i <= count || count < 0 && i == 0,
            n == count_of(count),
            reply.error_code == 0,
            take_i32(reply.data@) == Some((count, start)),
            take_n(start, i as nat, class_item(signature@)) == Some(
                (views(classes@), data@),
            ),
        decreases count - i,
    {
        let ghost before = data@;
        match read_class(&mut data, signature) {
            Ok(c) => {
                let ghost prev = views(classes@);
                let ghost cv = c@;
                classes.push(c);
                assert(views(classes@) =~= prev.push(cv));
                i = i + 1;
            },
            Err(e) => {
                proof {
                    assert(class_item(signature@)(before) is None);
                    assert(take_n(start, (i + 1) as nat, class_item(signature@)) is None);
                    lemma_take_n_fails_on(start, (i + 1) as nat, n, class_item(signature@));
                }
                return Err(e);
            },
        }
    }
    Ok(classes)
}

} // verus!
