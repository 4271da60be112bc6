use vstd::prelude::*;

use crate::layout::{read_array, read_u16, read_u32, read_u64};
use crate::telemetry::TelemetryEvent;
use crate::text::{convert_result_to_string, decimal_string};

verus! {

/// Size in bytes of one event record in the kernel ring buffer.
pub const GEN_EVENT_SIZE: usize = 576;

/// One event as the kernel probe writes it into the ring buffer.
///
/// The record is laid out as a C struct with natural alignment, numbers in
/// little-endian order:
///
/// | bytes     | field        |
/// |-----------|--------------|
/// | 0         | `event_type` |
/// | 4..8      | `pid`        |
/// | 8..12     | `ppid`       |
/// | 12..16    | `uid`        |
/// | 16..20    | `gid`        |
/// | 24..32    | `tgid`       |
/// | 32..48    | `comm`       |
/// | 48..560   | `filename`   |
/// | 560..564  | `dst_ip`     |
/// | 564..566  | `dst_port`   |
/// | 568..576  | `time_stamp` |
///
/// The bytes in between are padding and are not read.
#[derive(Clone, Copy, Debug)]
pub struct GenEvent {
    pub event_type: u8,
    pub pid: u32,
    pub ppid: u32,
    pub uid: u32,
    pub gid: u32,
    pub tgid: u64,
    pub comm: [u8; 16],
    pub filename: [u8; 512],
    pub dst_ip: u32,
    pub dst_port: u16,
    pub time_stamp: u64,
}

/// Whether `e` is the event that the record at the start of `s` encodes.
pub open spec fn gen_event_layout(s: Seq<u8>, e: GenEvent) -> bool {
    &&& s.len() >= GEN_EVENT_SIZE
    &&& e.event_type == s[0]
    &&& e.pid == crate::layout::le_u32(s, 4)
    &&& e.ppid == crate::layout::le_u32(s, 8)
    &&& e.uid == crate::layout::le_u32(s, 12)
    &&& e.gid == crate::layout::le_u32(s, 16)
    &&& e.tgid == crate::layout::le_u64(s, 24)
    &&& e.comm@ == s.subrange(32, 48)
    &&& e.filename@ == s.subrange(48, 560)
    &&& e.dst_ip == crate::layout::le_u32(s, 560)
    &&& e.dst_port == crate::layout::le_u16(s, 564)
    &&& e.time_stamp == crate::layout::le_u64(s, 568)
}

impl Default for GenEvent {
    /// The all-zero event.
    fn default() -> (e: GenEvent)
        ensures
            e.event_type == 0 && e.pid == 0 && e.ppid == 0 && e.uid == 0 && e.gid == 0,
            e.tgid == 0 && e.dst_ip == 0 && e.dst_port == 0 && e.time_stamp == 0,
            forall|i: int| 0 <= i < 16 ==> e.comm@[i] == 0,
            forall|i: int| 0 <= i < 512 ==> e.filename@[i] == 0,
    {
        GenEvent {
            event_type: 0,
            pid: 0,
            ppid: 0,
            uid: 0,
            gid: 0,
            tgid: 0,
            comm: [0u8; 16],
            filename: [0u8; 512],
            dst_ip: 0,
            dst_port: 0,
            time_stamp: 0,
        }
    }
}

impl GenEvent {
    /// Decodes the record at the start of `data`. Gives `None` when `data`
    /// is shorter than one record; bytes after the record are ignored.
    pub fn from_bytes(data: &[u8]) -> (res: Option<GenEvent>)
        ensures
            res is Some <==> data@.len() >= GEN_EVENT_SIZE,
            res matches Some(e) ==> gen_event_layout(data@, e),
    {
        if data.len() < GEN_EVENT_SIZE {
            return None;
        }
        Some(
            GenEvent {
                event_type: data[0],
                pid: read_u32(data, 4),
                ppid: read_u32(data, 8),
                uid: read_u32(data, 12),
                gid: read_u32(data, 16),
                tgid: read_u64(data, 24),
                comm: read_array::<16>(data, 32),
                filename: read_array::<512>(data, 48),
                dst_ip: read_u32(data, 560),
                dst_port: read_u16(data, 564),
                time_stamp: read_u64(data, 568),
            },
        )
    }
}

/// The numbers of a decoded record are read whole: the 64-bit fields
/// (`tgid` and `time_stamp`) are the values of all eight of their bytes,
/// the last byte weighing `256` to the seventh power, and the 32-bit
/// fields the values of all four of theirs.
pub proof fn lemma_gen_event_numbers_are_whole(s: Seq<u8>, e: GenEvent)
    requires
        gen_event_layout(s, e),
    ensures
        e.time_stamp == crate::layout::le_value(s, 568, 8),
        e.tgid == crate::layout::le_value(s, 24, 8),
        e.pid == crate::layout::le_value(s, 4, 4),
        e.ppid == crate::layout::le_value(s, 8, 4),
        e.uid == crate::layout::le_value(s, 12, 4),
        e.gid == crate::layout::le_value(s, 16, 4),
        e.dst_ip == crate::layout::le_value(s, 560, 4),
        e.dst_port == crate::layout::le_value(s, 564, 2),
{
    crate::layout::lemma_le_readings_are_byte_values(s, 568);
    crate::layout::lemma_le_readings_are_byte_values(s, 24);
    crate::layout::lemma_le_readings_are_byte_values(s, 4);
    crate::layout::lemma_le_readings_are_byte_values(s, 8);
    crate::layout::lemma_le_readings_are_byte_values(s, 12);
    crate::layout::lemma_le_readings_are_byte_values(s, 16);
    crate::layout::lemma_le_readings_are_byte_values(s, 560);
    crate::layout::lemma_le_readings_are_byte_values(s, 564);
}

/// Decoding reads nothing past the first record: two buffers that agree
/// on their first `GEN_EVENT_SIZE` bytes decode to the same event.
pub proof fn lemma_gen_event_reads_one_record(s1: Seq<u8>, s2: Seq<u8>, e: GenEvent)
    requires
        s1.len() >= GEN_EVENT_SIZE,
        s2.len() >= GEN_EVENT_SIZE,
        s1.take(GEN_EVENT_SIZE as int) == s2.take(GEN_EVENT_SIZE as int),
        gen_event_layout(s1, e),
    ensures
        gen_event_layout(s2, e),
{
    assert forall|i: int| 0 <= i < GEN_EVENT_SIZE implies s1[i] == s2[i] by {
        let n: int = GEN_EVENT_SIZE as int;
        assert(s1.take(n)[i] == s1[i]);
        assert(s2.take(n)[i] == s2[i]);
    }
    assert(s1.subrange(32, 48) =~= s2.subrange(32, 48));
    assert(s1.subrange(48, 560) =~= s2.subrange(48, 560));
}

/// The name under which an event of kind `code` is published.
pub open spec fn event_type_label(code: u8) -> Seq<char> {
    if code == 10 {
        "Execve"@
    } else if code == 11 {
        "Fork"@
    } else if code == 12 {
        "Exit"@
    } else if code == 13 {
        "Execveat"@
    } else if code == 20 {
        "Unlinkat"@
    } else if code == 21 {
        "Renameat"@
    } else if code == 22 {
        "Renameat2"@
    } else if code == 30 {
        "Connect"@
    } else if code == 31 {
        "Accept"@
    } else if code == 32 {
        "Bind"@
    } else if code == 40 {
        "Mount"@
    } else if code == 41 {
        "Unmount"@
    } else if code == 50 {
        "Chown"@
    } else if code == 51 {
        "Chmod"@
    } else {
        "Unknown"@
    }
}

/// The probe's event codes: process (10 to 13), file (20 to 22), network
/// (30 to 32), mount (40, 41) and permission (50, 51) events.
pub open spec fn is_known_event_type(code: u8) -> bool {
    code == 10 || code == 11 || code == 12 || code == 13 || code == 20 || code == 21 || code == 22
        || code == 30 || code == 31 || code == 32 || code == 40 || code == 41 || code == 50
        || code == 51
}

/// An event is published as `"Unknown"` exactly when its code is not one
/// of the probe's event codes.
pub proof fn lemma_unknown_exactly_unlisted(code: u8)
    ensures
        (event_type_label(code) == "Unknown"@) <==> !is_known_event_type(code),
{
    reveal_strlit("Unknown");
    reveal_strlit("Execve");
    reveal_strlit("Fork");
    reveal_strlit("Exit");
    reveal_strlit("Execveat");
    reveal_strlit("Unlinkat");
    reveal_strlit("Renameat");
    reveal_strlit("Renameat2");
    reveal_strlit("Connect");
    reveal_strlit("Accept");
    reveal_strlit("Bind");
    reveal_strlit("Mount");
    reveal_strlit("Unmount");
    reveal_strlit("Chown");
    reveal_strlit("Chmod");
    if is_known_event_type(code) {
        assert(event_type_label(code)[0] != 'U' || event_type_label(code)[2] != 'k');
    }
}

/// The name of the event kind `code`; codes the probe does not emit are
/// `"Unknown"`.
pub fn event_type_name(code: u8) -> (name: String)
    ensures
        name@ == event_type_label(code),
{
    let s: &str = match code {
        10 => "Execve",
        11 => "Fork",
        12 => "Exit",
        13 => "Execveat",
        20 => "Unlinkat",
        21 => "Renameat",
        22 => "Renameat2",
        30 => "Connect",
        31 => "Accept",
        32 => "Bind",
        40 => "Mount",
        41 => "Unmount",
        50 => "Chown",
        51 => "Chmod",
        _ => "Unknown",
    };
    String::from_str(s)
}

/// The wall-clock time, in nanoseconds since the Unix epoch and cut to
/// 64 bits, of a monotonic clock reading `monotonic_ns` taken while the
/// wall clock ran `offset_ns` ahead of the monotonic clock.
pub open spec fn spec_unix_nanos(monotonic_ns: u64, offset_ns: i128) -> i64 {
    (monotonic_ns + offset_ns) as i64
}

/// Converts a monotonic clock reading to wall-clock nanoseconds.
pub fn unix_nanos(monotonic_ns: u64, offset_ns: i128) -> (ns: i64)
    requires
        i128::MIN <= monotonic_ns + offset_ns <= i128::MAX,
    ensures
        ns == spec_unix_nanos(monotonic_ns, offset_ns),
{
    let unix_ns: i128 = monotonic_ns as i128 + offset_ns;
    unix_ns as i64
}

/// How far the wall clock runs ahead of the monotonic clock, given a wall
/// clock reading `unix_ns` (nanoseconds since the epoch) and a monotonic
/// reading of `mono_sec` seconds and `mono_nsec` nanoseconds taken at the
/// same moment.
pub open spec fn spec_clock_offset(unix_ns: u128, mono_sec: i64, mono_nsec: i64) -> int {
    (unix_ns as i128) - (mono_sec * 1_000_000_000 + mono_nsec)
}

/// Computes the offset of the wall clock from the monotonic clock.
pub fn clock_offset_ns(unix_ns: u128, mono_sec: i64, mono_nsec: i64) -> (offset: i128)
    requires
        i128::MIN <= spec_clock_offset(unix_ns, mono_sec, mono_nsec) <= i128::MAX,
    ensures
        offset == spec_clock_offset(unix_ns, mono_sec, mono_nsec),
{
    let mono_ns: i128 = mono_sec as i128 * 1_000_000_000 + mono_nsec as i128;
    unix_ns as i128 - mono_ns
}

/// A monotonic reading converted with the offset measured at that same
/// reading gives back the wall-clock time of that moment (both cut to 64
/// bits), whatever the readings, as long as the two conversions do not
/// overflow: the kernel's timestamp of an instant is shown as that
/// instant's wall-clock time.
pub proof fn lemma_offset_recovers_wall_clock(unix_ns: u128, mono_sec: i64, mono_nsec: i64)
    requires
        i128::MIN <= spec_clock_offset(unix_ns, mono_sec, mono_nsec) <= i128::MAX,
        i128::MIN <= ((mono_sec * 1_000_000_000 + mono_nsec) as u64) + spec_clock_offset(
            unix_ns,
            mono_sec,
            mono_nsec,
        ) <= i128::MAX,
    ensures
        ({
            let mono: u64 = (mono_sec * 1_000_000_000 + mono_nsec) as u64;
            let offset: i128 = spec_clock_offset(unix_ns, mono_sec, mono_nsec) as i128;
            &&& spec_unix_nanos(mono, offset) == (unix_ns as i128) as i64
            &&& unix_ns <= i64::MAX ==> spec_unix_nanos(mono, offset) == spec_unix_nanos(
                unix_ns as u64,
                0,
            )
        }),
{
    let u: i128 = unix_ns as i128;
    let mono_i: i128 = (mono_sec * 1_000_000_000 + mono_nsec) as i128;
    assert(mono_i == mono_sec * 1_000_000_000 + mono_nsec) by (nonlinear_arith)
        requires
            mono_i == (mono_sec * 1_000_000_000 + mono_nsec) as i128,
            i64::MIN <= mono_sec <= i64::MAX,
            i64::MIN <= mono_nsec <= i64::MAX,
    ;
    let m: u64 = mono_i as u64;
    assert(((m as i128) + (u - mono_i)) as i64 == u as i64) by (bit_vector)
        requires
            m == mono_i as u64,
            i128::MIN <= u - mono_i <= i128::MAX,
            i128::MIN <= m + (u - mono_i) <= i128::MAX,
    ;
    if unix_ns <= i64::MAX {
        assert((unix_ns as i128) as i64 == ((unix_ns as u64) + 0int) as i64);
    }
}

/// The text that `chrono` prints for the UTC instant `nanos` nanoseconds
/// after the Unix epoch, in the pattern `%Y-%m-%d %H:%M:%S%.3f UTC`.
pub uninterp spec fn utc_timestamp_text(nanos: i64) -> Seq<char>;

/// Formats an instant with `chrono`: `DateTime::<Utc>::from_timestamp_nanos`
/// followed by `format("%Y-%m-%d %H:%M:%S%.3f UTC")`. The contract claims
/// only that the text depends on `nanos` alone; the calendar arithmetic is
/// `chrono`'s.
#[verifier::external_body]
fn format_utc_nanos(nanos: i64) -> (text: String)
    ensures
        text@ == utc_timestamp_text(nanos),
{
    chrono::DateTime::<chrono::Utc>::from_timestamp_nanos(nanos).format(
        "%Y-%m-%d %H:%M:%S%.3f UTC",
    ).to_string()
}

/// The wall-clock time of a monotonic reading, as text with millisecond
/// precision.
pub fn nanosec_to_timestamp(monotonic_ns: u64, offset_ns: i128) -> (text: String)
    requires
        i128::MIN <= monotonic_ns + offset_ns <= i128::MAX,
    ensures
        text@ == utc_timestamp_text(spec_unix_nanos(monotonic_ns, offset_ns)),
{
    format_utc_nanos(unix_nanos(monotonic_ns, offset_ns))
}

/// The text placed in `comm` when the process's command line could not be
/// read.
pub open spec fn expired_cmdline() -> Seq<char> {
    "cmdline expired"@
}

/// Turns a kernel record into the event that is published.
///
/// `cmdline` is the content of `/proc/<pid>/cmdline` for the record's
/// process, or `None` when it could not be read (the process is gone).
pub fn make_event(buff_event: &GenEvent, offset_ns: i128, cmdline: Option<&[u8]>) -> (event:
    TelemetryEvent)
    requires
        i128::MIN <= buff_event.time_stamp + offset_ns <= i128::MAX,
    ensures
        event@.event_type == event_type_label(buff_event.event_type),
        event.pid == buff_event.pid,
        event.ppid == buff_event.ppid,
        event.uid == buff_event.uid,
        event.gid == buff_event.gid,
        event.tgid == buff_event.tgid,
        event@.dst_ip == crate::text::decimal_digits(buff_event.dst_ip as nat),
        event@.dst_port == crate::text::decimal_digits(buff_event.dst_port as nat),
        event@.comm == (match cmdline {
            Some(bytes) => crate::text::c_string_text(bytes@),
            None => expired_cmdline(),
        }),
        event@.filename == crate::text::c_string_text(buff_event.filename@),
        event@.time_stamp == utc_timestamp_text(
            spec_unix_nanos(buff_event.time_stamp, offset_ns),
        ),
{
    let comm = match cmdline {
        Some(bytes) => convert_result_to_string(bytes),
        None => String::from_str("cmdline expired"),
    };
    let filename_bytes: &[u8] = buff_event.filename.as_slice();
    TelemetryEvent {
        event_type: event_type_name(buff_event.event_type),
        pid: buff_event.pid,
        ppid: buff_event.ppid,
        uid: buff_event.uid,
        gid: buff_event.gid,
        tgid: buff_event.tgid,
        comm,
        filename: convert_result_to_string(filename_bytes),
        dst_ip: decimal_string(buff_event.dst_ip as u64),
        dst_port: decimal_string(buff_event.dst_port as u64),
        time_stamp: nanosec_to_timestamp(buff_event.time_stamp, offset_ns),
    }
}

} // verus!
