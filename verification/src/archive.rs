use vstd::prelude::*;

use std::hash::DefaultHasher;
use std::hash::Hasher;
use vstd::bytes::{u16_to_le_bytes, u32_to_le_bytes, u64_to_le_bytes};

use crate::store::hash_text;

verus! {

/// A stored event record: the kernel record's fields with the strings
/// already decoded, under an event id.
#[derive(Debug, Hash)]
pub struct GenEvent {
    pub event_id: String,
    pub event_type: u8,
    pub pid: u32,
    pub ppid: u32,
    pub uid: u32,
    pub gid: u32,
    pub tgid: u64,
    pub comm: String,
    pub filename: String,
    pub dst_ip: String,
    pub dst_port: u16,
    pub time_stamp: String,
}

/// The writes that hashing a stored event performs, field by field in
/// declaration order: text as its UTF-8 bytes and the terminator byte,
/// numbers as their little-endian bytes.
pub open spec fn gen_event_hash_writes(e: GenEvent) -> Seq<Seq<u8>> {
    seq![
        vstd::utf8::encode_utf8(e.event_id@),
        crate::store::str_terminator(),
        seq![e.event_type],
        vstd::bytes::spec_u32_to_le_bytes(e.pid),
        vstd::bytes::spec_u32_to_le_bytes(e.ppid),
        vstd::bytes::spec_u32_to_le_bytes(e.uid),
        vstd::bytes::spec_u32_to_le_bytes(e.gid),
        vstd::bytes::spec_u64_to_le_bytes(e.tgid),
        vstd::utf8::encode_utf8(e.comm@),
        crate::store::str_terminator(),
        vstd::utf8::encode_utf8(e.filename@),
        crate::store::str_terminator(),
        vstd::utf8::encode_utf8(e.dst_ip@),
        crate::store::str_terminator(),
        vstd::bytes::spec_u16_to_le_bytes(e.dst_port),
        vstd::utf8::encode_utf8(e.time_stamp@),
        crate::store::str_terminator(),
    ]
}

/// The writes of two stored events agree only when the events do: every
/// field, each text whole whatever its length, goes into the hash.
pub proof fn lemma_gen_event_hash_writes_determine_event(a: GenEvent, b: GenEvent)
    requires
        gen_event_hash_writes(a) == gen_event_hash_writes(b),
    ensures
        a.event_id@ == b.event_id@,
        a.event_type == b.event_type,
        a.pid == b.pid,
        a.ppid == b.ppid,
        a.uid == b.uid,
        a.gid == b.gid,
        a.tgid == b.tgid,
        a.comm@ == b.comm@,
        a.filename@ == b.filename@,
        a.dst_ip@ == b.dst_ip@,
        a.dst_port == b.dst_port,
        a.time_stamp@ == b.time_stamp@,
{
    vstd::bytes::lemma_auto_spec_u16_to_from_le_bytes();
    vstd::bytes::lemma_auto_spec_u32_to_from_le_bytes();
    vstd::bytes::lemma_auto_spec_u64_to_from_le_bytes();
    let wa = gen_event_hash_writes(a);
    let wb = gen_event_hash_writes(b);
    assert(wa[0] == wb[0] && wa[2] == wb[2] && wa[3] == wb[3] && wa[4] == wb[4] && wa[5] == wb[5]);
    assert(wa[6] == wb[6] && wa[7] == wb[7] && wa[8] == wb[8] && wa[10] == wb[10]);
    assert(wa[12] == wb[12] && wa[14] == wb[14] && wa[15] == wb[15]);
    assert(wa[2][0] == a.event_type && wb[2][0] == b.event_type);
    assert(wa[3] == vstd::bytes::spec_u32_to_le_bytes(a.pid) && wb[3] == vstd::bytes::spec_u32_to_le_bytes(b.pid));
    assert(vstd::bytes::spec_u32_to_le_bytes(a.pid).len() == 4 && vstd::bytes::spec_u32_to_le_bytes(b.pid).len() == 4);
    assert(vstd::bytes::spec_u32_from_le_bytes(wa[3]) == a.pid && vstd::bytes::spec_u32_from_le_bytes(wb[3]) == b.pid);
    assert(wa[4] == vstd::bytes::spec_u32_to_le_bytes(a.ppid) && wb[4] == vstd::bytes::spec_u32_to_le_bytes(b.ppid));
    assert(vstd::bytes::spec_u32_to_le_bytes(a.ppid).len() == 4 && vstd::bytes::spec_u32_to_le_bytes(b.ppid).len() == 4);
    assert(vstd::bytes::spec_u32_from_le_bytes(wa[4]) == a.ppid && vstd::bytes::spec_u32_from_le_bytes(wb[4]) == b.ppid);
    assert(wa[5] == vstd::bytes::spec_u32_to_le_bytes(a.uid) && wb[5] == vstd::bytes::spec_u32_to_le_bytes(b.uid));
    assert(vstd::bytes::spec_u32_to_le_bytes(a.uid).len() == 4 && vstd::bytes::spec_u32_to_le_bytes(b.uid).len() == 4);
    assert(vstd::bytes::spec_u32_from_le_bytes(wa[5]) == a.uid && vstd::bytes::spec_u32_from_le_bytes(wb[5]) == b.uid);
    assert(wa[6] == vstd::bytes::spec_u32_to_le_bytes(a.gid) && wb[6] == vstd::bytes::spec_u32_to_le_bytes(b.gid));
    assert(vstd::bytes::spec_u32_to_le_bytes(a.gid).len() == 4 && vstd::bytes::spec_u32_to_le_bytes(b.gid).len() == 4);
    assert(vstd::bytes::spec_u32_from_le_bytes(wa[6]) == a.gid && vstd::bytes::spec_u32_from_le_bytes(wb[6]) == b.gid);
    assert(vstd::bytes::spec_u64_from_le_bytes(wa[7]) == a.tgid && vstd::bytes::spec_u64_from_le_bytes(wb[7]) == b.tgid);
    assert(wa[14] == vstd::bytes::spec_u16_to_le_bytes(a.dst_port) && wb[14] == vstd::bytes::spec_u16_to_le_bytes(b.dst_port));
    assert(vstd::bytes::spec_u16_to_le_bytes(a.dst_port).len() == 2 && vstd::bytes::spec_u16_to_le_bytes(b.dst_port).len() == 2);
    assert(vstd::bytes::spec_u16_from_le_bytes(wa[14]) == a.dst_port && vstd::bytes::spec_u16_from_le_bytes(wb[14]) == b.dst_port);
    vstd::utf8::encode_utf8_decode_utf8(a.event_id@);
    vstd::utf8::encode_utf8_decode_utf8(b.event_id@);
    vstd::utf8::encode_utf8_decode_utf8(a.comm@);
    vstd::utf8::encode_utf8_decode_utf8(b.comm@);
    vstd::utf8::encode_utf8_decode_utf8(a.filename@);
    vstd::utf8::encode_utf8_decode_utf8(b.filename@);
    vstd::utf8::encode_utf8_decode_utf8(a.dst_ip@);
    vstd::utf8::encode_utf8_decode_utf8(b.dst_ip@);
    vstd::utf8::encode_utf8_decode_utf8(a.time_stamp@);
    vstd::utf8::encode_utf8_decode_utf8(b.time_stamp@);
}

/// The key under which a stored event is kept: the `DefaultHasher` digest
/// of its fields.
pub fn calculate_hash(value: &GenEvent) -> (key: u64)
    ensures
        key == <DefaultHasher as vstd::std_specs::hash::DefaultHasherAdditionalSpecFns>::spec_finish(
            gen_event_hash_writes(*value),
        ),
{
    let mut h = DefaultHasher::new();
    hash_text(&mut h, &value.event_id);
    let kind: [u8; 1] = [value.event_type];
    h.write(kind.as_slice());
    h.write(u32_to_le_bytes(value.pid).as_slice());
    h.write(u32_to_le_bytes(value.ppid).as_slice());
    h.write(u32_to_le_bytes(value.uid).as_slice());
    h.write(u32_to_le_bytes(value.gid).as_slice());
    h.write(u64_to_le_bytes(value.tgid).as_slice());
    hash_text(&mut h, &value.comm);
    hash_text(&mut h, &value.filename);
    hash_text(&mut h, &value.dst_ip);
    h.write(u16_to_le_bytes(value.dst_port).as_slice());
    hash_text(&mut h, &value.time_stamp);
    assert(kind@ =~= seq![value.event_type]);
    assert(h@ =~= gen_event_hash_writes(*value));
    h.finish()
}

} // verus!
