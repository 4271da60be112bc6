use vstd::prelude::*;

use std::hash::DefaultHasher;
use std::hash::Hasher;
use vstd::bytes::{u32_to_le_bytes, u64_to_le_bytes};

use crate::telemetry::{TelemetryEvent, TelemetryEventView};

verus! {

/// The byte that `Hash for str` writes after the text, so that
/// adjacent strings cannot run together.
pub open spec fn str_terminator() -> Seq<u8> {
    seq![0xffu8]
}

/// The writes that hashing an event performs, field by field in
/// declaration order: a text field writes its UTF-8 bytes and then the
/// terminator byte, a number writes its little-endian bytes. On a
/// little-endian host this is the sequence the derived `Hash` feeds.
pub open spec fn telemetry_hash_writes(e: TelemetryEventView) -> Seq<Seq<u8>> {
    seq![
        vstd::utf8::encode_utf8(e.event_type),
        str_terminator(),
        vstd::bytes::spec_u32_to_le_bytes(e.pid),
        vstd::bytes::spec_u32_to_le_bytes(e.ppid),
        vstd::bytes::spec_u32_to_le_bytes(e.uid),
        vstd::bytes::spec_u32_to_le_bytes(e.gid),
        vstd::bytes::spec_u64_to_le_bytes(e.tgid),
        vstd::utf8::encode_utf8(e.comm),
        str_terminator(),
        vstd::utf8::encode_utf8(e.filename),
        str_terminator(),
        vstd::utf8::encode_utf8(e.dst_ip),
        str_terminator(),
        vstd::utf8::encode_utf8(e.dst_port),
        str_terminator(),
        vstd::utf8::encode_utf8(e.time_stamp),
        str_terminator(),
    ]
}

/// The writes of two events agree only when the events do: every field,
/// each text whole whatever its length, goes into the hash, so events
/// that differ anywhere feed the hasher differently.
pub proof fn lemma_hash_writes_determine_event(a: TelemetryEventView, b: TelemetryEventView)
    requires
        telemetry_hash_writes(a) == telemetry_hash_writes(b),
    ensures
        a == b,
{
    vstd::bytes::lemma_auto_spec_u32_to_from_le_bytes();
    vstd::bytes::lemma_auto_spec_u64_to_from_le_bytes();
    let wa = telemetry_hash_writes(a);
    let wb = telemetry_hash_writes(b);
    assert(wa[0] == wb[0] && wa[2] == wb[2] && wa[3] == wb[3] && wa[4] == wb[4]);
    assert(wa[5] == wb[5] && wa[6] == wb[6] && wa[7] == wb[7] && wa[9] == wb[9]);
    assert(wa[11] == wb[11] && wa[13] == wb[13] && wa[15] == wb[15]);
    assert(wa[2] == vstd::bytes::spec_u32_to_le_bytes(a.pid) && wb[2] == vstd::bytes::spec_u32_to_le_bytes(b.pid));
    assert(vstd::bytes::spec_u32_to_le_bytes(a.pid).len() == 4 && vstd::bytes::spec_u32_to_le_bytes(b.pid).len() == 4);
    assert(vstd::bytes::spec_u32_from_le_bytes(wa[2]) == a.pid && vstd::bytes::spec_u32_from_le_bytes(wb[2]) == b.pid);
    assert(wa[3] == vstd::bytes::spec_u32_to_le_bytes(a.ppid) && wb[3] == vstd::bytes::spec_u32_to_le_bytes(b.ppid));
    assert(vstd::bytes::spec_u32_to_le_bytes(a.ppid).len() == 4 && vstd::bytes::spec_u32_to_le_bytes(b.ppid).len() == 4);
    assert(vstd::bytes::spec_u32_from_le_bytes(wa[3]) == a.ppid && vstd::bytes::spec_u32_from_le_bytes(wb[3]) == b.ppid);
    assert(wa[4] == vstd::bytes::spec_u32_to_le_bytes(a.uid) && wb[4] == vstd::bytes::spec_u32_to_le_bytes(b.uid));
    assert(vstd::bytes::spec_u32_to_le_bytes(a.uid).len() == 4 && vstd::bytes::spec_u32_to_le_bytes(b.uid).len() == 4);
    assert(vstd::bytes::spec_u32_from_le_bytes(wa[4]) == a.uid && vstd::bytes::spec_u32_from_le_bytes(wb[4]) == b.uid);
    assert(wa[5] == vstd::bytes::spec_u32_to_le_bytes(a.gid) && wb[5] == vstd::bytes::spec_u32_to_le_bytes(b.gid));
    assert(vstd::bytes::spec_u32_to_le_bytes(a.gid).len() == 4 && vstd::bytes::spec_u32_to_le_bytes(b.gid).len() == 4);
    assert(vstd::bytes::spec_u32_from_le_bytes(wa[5]) == a.gid && vstd::bytes::spec_u32_from_le_bytes(wb[5]) == b.gid);
    assert(vstd::bytes::spec_u64_from_le_bytes(wa[6]) == a.tgid && vstd::bytes::spec_u64_from_le_bytes(wb[6]) == b.tgid);
    vstd::utf8::encode_utf8_decode_utf8(a.event_type);
    vstd::utf8::encode_utf8_decode_utf8(b.event_type);
    vstd::utf8::encode_utf8_decode_utf8(a.comm);
    vstd::utf8::encode_utf8_decode_utf8(b.comm);
    vstd::utf8::encode_utf8_decode_utf8(a.filename);
    vstd::utf8::encode_utf8_decode_utf8(b.filename);
    vstd::utf8::encode_utf8_decode_utf8(a.dst_ip);
    vstd::utf8::encode_utf8_decode_utf8(b.dst_ip);
    vstd::utf8::encode_utf8_decode_utf8(a.dst_port);
    vstd::utf8::encode_utf8_decode_utf8(b.dst_port);
    vstd::utf8::encode_utf8_decode_utf8(a.time_stamp);
    vstd::utf8::encode_utf8_decode_utf8(b.time_stamp);
    assert(a.event_type == b.event_type && a.comm == b.comm && a.filename == b.filename);
    assert(a.dst_ip == b.dst_ip && a.dst_port == b.dst_port && a.time_stamp == b.time_stamp);
    assert(a.pid == b.pid && a.ppid == b.ppid && a.uid == b.uid && a.gid == b.gid && a.tgid == b.tgid);
}

pub(crate) fn hash_text(h: &mut DefaultHasher, s: &String)
    ensures
        final(h)@ == old(h)@.push(vstd::utf8::encode_utf8(s@)).push(str_terminator()),
{
    h.write(s.as_str().as_bytes());
    let end: [u8; 1] = [0xffu8];
    h.write(end.as_slice());
    assert(end@ =~= str_terminator());
}

/// The key under which an event is stored: the `DefaultHasher` digest of
/// its fields.
pub fn calculate_hash(value: &TelemetryEvent) -> (key: u64)
    ensures
        key == <DefaultHasher as vstd::std_specs::hash::DefaultHasherAdditionalSpecFns>::spec_finish(telemetry_hash_writes(value@)),
{
    let mut h = DefaultHasher::new();
    hash_text(&mut h, &value.event_type);
    h.write(u32_to_le_bytes(value.pid).as_slice());
    h.write(u32_to_le_bytes(value.ppid).as_slice());
    h.write(u32_to_le_bytes(value.uid).as_slice());
    h.write(u32_to_le_bytes(value.gid).as_slice());
    h.write(u64_to_le_bytes(value.tgid).as_slice());
    hash_text(&mut h, &value.comm);
    hash_text(&mut h, &value.filename);
    hash_text(&mut h, &value.dst_ip);
    hash_text(&mut h, &value.dst_port);
    hash_text(&mut h, &value.time_stamp);
    assert(h@ =~= telemetry_hash_writes(value@));
    h.finish()
}

/// The fields of a [`TelemetryEvent`] in declaration order: the shape in
/// which an event is encoded for storage.
pub type EventFields = (String, u32, u32, u32, u32, u64, String, String, String, String, String);

/// Decoded fields and the number of bytes they were read from.
pub type DecodedFields = (EventFields, usize);

/// The event that a tuple of fields describes.
pub open spec fn fields_view(f: EventFields) -> TelemetryEventView {
    TelemetryEventView {
        event_type: f.0@,
        pid: f.1,
        ppid: f.2,
        uid: f.3,
        gid: f.4,
        tgid: f.5,
        comm: f.6@,
        filename: f.7@,
        dst_ip: f.8@,
        dst_port: f.9@,
        time_stamp: f.10@,
    }
}

/// The bytes that `bincode` (standard configuration) produces for an
/// event's fields in declaration order.
pub uninterp spec fn bincode_event_encoding(event: TelemetryEventView) -> Seq<u8>;

/// What `bincode` (standard configuration with a byte limit of `limit`)
/// decodes from `bytes` when it reads an event's fields in declaration
/// order: the event and the number of bytes read, or `None` when the bytes
/// are not such an encoding or the decoder would claim more than `limit`
/// bytes.
pub uninterp spec fn bincode_event_decoding(bytes: Seq<u8>, limit: nat) -> Option<(TelemetryEventView, nat)>;

/// The byte limit under which stored records are decoded: the largest
/// size an allocation may have, so that a length prefix asking for more
/// is refused instead of failing the allocation.
pub const STORE_DECODE_LIMIT: usize = isize::MAX as usize;

/// Whether a record is short enough that decoding it stays within the
/// limit. An event's encoding claims at most 64 bytes of the limit beyond
/// its own length (each of its four `u32`, its `u64` and its six text
/// lengths claims its full width, however few bytes encode it), so only
/// records within 64 bytes of the largest possible allocation fail this.
pub open spec fn within_decode_limit(bytes: Seq<u8>) -> bool {
    bytes.len() + 64 <= STORE_DECODE_LIMIT
}

#[verifier::external_type_specification]
#[verifier::external_body]
pub struct ExEncodeError(bincode::error::EncodeError);

#[verifier::external_type_specification]
#[verifier::external_body]
pub struct ExDecodeError(bincode::error::DecodeError);

/// `bincode::serde::encode_to_vec` with `bincode::config::standard()`, on the
/// tuple of the event's fields. Claimed: the result is `Ok` (the encoder
/// writes into a growing `Vec` and the standard configuration sets no size
/// limit, so no error path is reachable) and the bytes depend on the
/// event's contents alone.
#[verifier::external_body]
fn bincode_encode(e: &TelemetryEvent) -> (res: Result<Vec<u8>, bincode::error::EncodeError>)
    ensures
        res is Ok,
        res matches Ok(bytes) ==> bytes@ == bincode_event_encoding(e@),
{
    let all = (&e.event_type, e.pid, e.ppid, e.uid, e.gid, e.tgid, &e.comm, &e.filename, &e.dst_ip, &e.dst_port, &e.time_stamp);
    bincode::serde::encode_to_vec(all, bincode::config::standard())
}

/// `bincode::serde::decode_from_slice` with
/// `bincode::config::standard().with_limit::<STORE_DECODE_LIMIT>()`,
/// reading the tuple of an event's fields. The limit is checked before a
/// text's bytes are allocated, so a length prefix beyond the largest
/// possible allocation gives an error rather than a panic. Claimed: the outcome depends on the bytes and the
/// limit alone, and bytes that the encoder produced for an event decode to
/// that event, all of them read, when the limit exceeds their length by at
/// least 64 (each number read claims its full width of four or eight
/// bytes, each text length eight, each text byte one; the event has four
/// `u32`, one `u64` and six texts, each encoded in at least one byte).
#[verifier::external_body]
fn bincode_decode(bytes: &[u8]) -> (res: Result<DecodedFields, bincode::error::DecodeError>)
    ensures
        res is Ok <==> bincode_event_decoding(bytes@, STORE_DECODE_LIMIT as nat) is Some,
        res matches Ok((f, n)) ==> bincode_event_decoding(bytes@, STORE_DECODE_LIMIT as nat) == Some((fields_view(f), n as nat)),
        res is Err && bytes@.len() + 64 <= STORE_DECODE_LIMIT ==> !exists|v: TelemetryEventView| #[trigger] bincode_event_encoding(v) == bytes@,
        res matches Ok((f, n)) ==> forall|v: TelemetryEventView| #[trigger] bincode_event_encoding(v) == bytes@ ==> fields_view(f) == v && n == bytes@.len(),
{
    bincode::serde::decode_from_slice(bytes, bincode::config::standard().with_limit::<STORE_DECODE_LIMIT>())
}

/// Why stored bytes could not be turned back into an event.
#[derive(Debug)]
pub enum StoreError {
    /// The bytes are not the encoding of an event.
    Undecodable,
}

/// The bytes under which an event is stored.
pub fn encode_event(event: &TelemetryEvent) -> (bytes: Vec<u8>)
    ensures
        bytes@ == bincode_event_encoding(event@),
{
    match bincode_encode(event) {
        Ok(bytes) => bytes,
        Err(_) => {
            proof {
                assert(false);
            }
            Vec::new()
        },
    }
}

/// Reads back an event from the bytes it was stored as. Every record that
/// `encode_event` produced reads back, but for one within 64 bytes of the
/// largest possible allocation.
pub fn decode_event(bytes: &[u8]) -> (res: Result<TelemetryEvent, StoreError>)
    ensures
        res is Ok <==> bincode_event_decoding(bytes@, STORE_DECODE_LIMIT as nat) is Some,
        res matches Ok(e) ==> bincode_event_decoding(bytes@, STORE_DECODE_LIMIT as nat) matches Some((v, _)) && v == e@,
        res matches Err(err) ==> err == StoreError::Undecodable,
        forall|v: TelemetryEventView|
            #[trigger] bincode_event_encoding(v) == bytes@ && within_decode_limit(bytes@) ==> (res matches Ok(e) && e@ == v),
{
    match bincode_decode(bytes) {
        Ok((f, _)) => Ok(
            TelemetryEvent {
                event_type: f.0,
                pid: f.1,
                ppid: f.2,
                uid: f.3,
                gid: f.4,
                tgid: f.5,
                comm: f.6,
                filename: f.7,
                dst_ip: f.8,
                dst_port: f.9,
                time_stamp: f.10,
            },
        ),
        Err(_) => Err(StoreError::Undecodable),
    }
}

} // verus!
