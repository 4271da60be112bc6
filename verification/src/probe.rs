use vstd::prelude::*;

use crate::layout::{read_array, read_u32, read_u64};
use crate::text::convert_result_to_string;

verus! {

/// The kind of record the first byte of a ring-buffer record announces.
#[derive(Debug, Clone, Copy, PartialEq, Eq, Structural)]
pub enum RecordKind {
    /// A process record (first byte 0).
    Process,
    /// A file record (first byte 1).
    File,
    /// Any other first byte: the record is skipped.
    Other,
}

/// The kind of record whose first byte is `header`.
pub open spec fn spec_record_kind(header: u8) -> RecordKind {
    if header == 0 {
        RecordKind::Process
    } else if header == 1 {
        RecordKind::File
    } else {
        RecordKind::Other
    }
}

/// Reads the header byte of a record.
pub fn record_kind(data: &[u8]) -> (kind: RecordKind)
    requires
        data@.len() >= 1,
    ensures
        kind == spec_record_kind(data@[0]),
{
    match data[0] {
        0 => RecordKind::Process,
        1 => RecordKind::File,
        _ => RecordKind::Other,
    }
}

/// Size in bytes of a process record.
pub const PROC_EVENT_SIZE: usize = 608;

/// A process record. Laid out as a C struct with natural alignment,
/// numbers little-endian: `event_type` at 0, `pid` at 4, `uid` at 8, `gid`
/// at 12, `tgid` at 16, `ppid` at 20, `comm` at 24..40, two 24-byte slots
/// for the executable path and the command line at 40..88 (not read),
/// `filename` at 88..600 and `time_stamp` at 600..608.
#[derive(Clone, Copy, Debug)]
pub struct ProcEvent {
    pub event_type: u8,
    pub pid: u32,
    pub uid: u32,
    pub gid: u32,
    pub tgid: u32,
    pub ppid: u32,
    pub comm: [u8; 16],
    pub filename: [u8; 512],
    pub time_stamp: u64,
}

/// Whether `e` is the process record at the start of `s`.
pub open spec fn proc_event_layout(s: Seq<u8>, e: ProcEvent) -> bool {
    &&& s.len() >= PROC_EVENT_SIZE
    &&& e.event_type == s[0]
    &&& e.pid == crate::layout::le_u32(s, 4)
    &&& e.uid == crate::layout::le_u32(s, 8)
    &&& e.gid == crate::layout::le_u32(s, 12)
    &&& e.tgid == crate::layout::le_u32(s, 16)
    &&& e.ppid == crate::layout::le_u32(s, 20)
    &&& e.comm@ == s.subrange(24, 40)
    &&& e.filename@ == s.subrange(88, 600)
    &&& e.time_stamp == crate::layout::le_u64(s, 600)
}

impl Default for ProcEvent {
    /// The all-zero record.
    fn default() -> (e: ProcEvent)
        ensures
            e.event_type == 0 && e.pid == 0 && e.uid == 0 && e.gid == 0 && e.tgid == 0,
            e.ppid == 0 && e.time_stamp == 0,
            forall|i: int| 0 <= i < 16 ==> e.comm@[i] == 0,
            forall|i: int| 0 <= i < 512 ==> e.filename@[i] == 0,
    {
        ProcEvent {
            event_type: 0,
            pid: 0,
            uid: 0,
            gid: 0,
            tgid: 0,
            ppid: 0,
            comm: [0u8; 16],
            filename: [0u8; 512],
            time_stamp: 0,
        }
    }
}

impl ProcEvent {
    /// Decodes the process record at the start of `data`; `None` when
    /// `data` is shorter than a record.
    pub fn from_bytes(data: &[u8]) -> (res: Option<ProcEvent>)
        ensures
            res is Some <==> data@.len() >= PROC_EVENT_SIZE,
            res matches Some(e) ==> proc_event_layout(data@, e),
    {
        if data.len() < PROC_EVENT_SIZE {
            return None;
        }
        Some(
            ProcEvent {
                event_type: data[0],
                pid: read_u32(data, 4),
                uid: read_u32(data, 8),
                gid: read_u32(data, 12),
                tgid: read_u32(data, 16),
                ppid: read_u32(data, 20),
                comm: read_array::<16>(data, 24),
                filename: read_array::<512>(data, 88),
                time_stamp: read_u64(data, 600),
            },
        )
    }
}

/// The numbers of a decoded process record are read whole: `time_stamp`
/// is the value of all eight of its bytes, the last weighing `256` to the
/// seventh power, and the 32-bit fields the values of all four of theirs.
pub proof fn lemma_proc_event_numbers_are_whole(s: Seq<u8>, e: ProcEvent)
    requires
        proc_event_layout(s, e),
    ensures
        e.time_stamp == crate::layout::le_value(s, 600, 8),
        e.pid == crate::layout::le_value(s, 4, 4),
        e.uid == crate::layout::le_value(s, 8, 4),
        e.gid == crate::layout::le_value(s, 12, 4),
        e.tgid == crate::layout::le_value(s, 16, 4),
        e.ppid == crate::layout::le_value(s, 20, 4),
{
    crate::layout::lemma_le_readings_are_byte_values(s, 600);
    crate::layout::lemma_le_readings_are_byte_values(s, 4);
    crate::layout::lemma_le_readings_are_byte_values(s, 8);
    crate::layout::lemma_le_readings_are_byte_values(s, 12);
    crate::layout::lemma_le_readings_are_byte_values(s, 16);
    crate::layout::lemma_le_readings_are_byte_values(s, 20);
}

/// Size in bytes of a file record.
pub const FILE_EVENT_SIZE: usize = 524;

/// A file record. Laid out as a C struct with natural alignment, numbers
/// little-endian: `event_type` at 0, `pid` at 4, `filename` at 8..520,
/// `operation` at 520.
#[derive(Clone, Copy, Debug)]
pub struct FileEvent {
    pub event_type: u8,
    pub pid: u32,
    pub filename: [u8; 512],
    pub operation: u8,
}

/// Whether `e` is the file record at the start of `s`.
pub open spec fn file_event_layout(s: Seq<u8>, e: FileEvent) -> bool {
    &&& s.len() >= FILE_EVENT_SIZE
    &&& e.event_type == s[0]
    &&& e.pid == crate::layout::le_u32(s, 4)
    &&& e.filename@ == s.subrange(8, 520)
    &&& e.operation == s[520]
}

impl Default for FileEvent {
    /// The all-zero record.
    fn default() -> (e: FileEvent)
        ensures
            e.event_type == 0 && e.pid == 0 && e.operation == 0,
            forall|i: int| 0 <= i < 512 ==> e.filename@[i] == 0,
    {
        FileEvent { event_type: 0, pid: 0, filename: [0u8; 512], operation: 0 }
    }
}

impl FileEvent {
    /// Decodes the file record at the start of `data`; `None` when `data`
    /// is shorter than a record.
    pub fn from_bytes(data: &[u8]) -> (res: Option<FileEvent>)
        ensures
            res is Some <==> data@.len() >= FILE_EVENT_SIZE,
            res matches Some(e) ==> file_event_layout(data@, e),
    {
        if data.len() < FILE_EVENT_SIZE {
            return None;
        }
        Some(
            FileEvent {
                event_type: data[0],
                pid: read_u32(data, 4),
                filename: read_array::<512>(data, 8),
                operation: data[520],
            },
        )
    }
}

/// What is printed of a process record.
#[derive(Debug)]
pub struct ProcReport {
    pub pid: u32,
    pub ppid: u32,
    pub uid: u32,
    pub gid: u32,
    pub tgid: u32,
    pub comm: String,
    pub filename: String,
    pub time_stamp: u64,
}

/// Reads a process record for printing.
pub fn handle_proc_event(data: &[u8]) -> (report: ProcReport)
    requires
        data@.len() >= PROC_EVENT_SIZE,
    ensures
        exists|e: ProcEvent|
            {
                &&& #[trigger] proc_event_layout(data@, e)
                &&& report.pid == e.pid
                &&& report.ppid == e.ppid
                &&& report.uid == e.uid
                &&& report.gid == e.gid
                &&& report.tgid == e.tgid
                &&& report.comm@ == crate::text::c_string_text(e.comm@)
                &&& report.filename@ == crate::text::c_string_text(e.filename@)
                &&& report.time_stamp == e.time_stamp
            },
{
    let event = match ProcEvent::from_bytes(data) {
        Some(e) => e,
        None => {
            proof {
                assert(false);
            }
            return ProcReport {
                pid: 0,
                ppid: 0,
                uid: 0,
                gid: 0,
                tgid: 0,
                comm: String::new(),
                filename: String::new(),
                time_stamp: 0,
            };
        },
    };
    ProcReport {
        pid: event.pid,
        ppid: event.ppid,
        uid: event.uid,
        gid: event.gid,
        tgid: event.tgid,
        comm: convert_result_to_string(event.comm.as_slice()),
        filename: convert_result_to_string(event.filename.as_slice()),
        time_stamp: event.time_stamp,
    }
}

/// The process id of a decoded file record is read whole: the value of
/// all four of its bytes.
pub proof fn lemma_file_event_pid_is_whole(s: Seq<u8>, e: FileEvent)
    requires
        file_event_layout(s, e),
    ensures
        e.pid == crate::layout::le_value(s, 4, 4),
{
    crate::layout::lemma_le_readings_are_byte_values(s, 4);
}

/// The name printed for a file operation code.
pub open spec fn file_operation_label(operation: u8) -> Seq<char> {
    if operation == 1 {
        "Open"@
    } else {
        "idk"@
    }
}

/// What is printed of a file record.
#[derive(Debug)]
pub struct FileReport {
    pub pid: u32,
    pub filename: String,
    pub operation: String,
}

/// Reads a file record for printing. Gives `None`, and nothing is printed,
/// when the record names no file.
pub fn handle_file_event(data: &[u8]) -> (report: Option<FileReport>)
    requires
        data@.len() >= FILE_EVENT_SIZE,
    ensures
        exists|e: FileEvent|
            {
                &&& #[trigger] file_event_layout(data@, e)
                &&& (report is None <==> crate::text::c_string_text(e.filename@).len() == 0)
                &&& (report matches Some(r) ==> {
                    &&& r.pid == e.pid
                    &&& r.filename@ == crate::text::c_string_text(e.filename@)
                    &&& r.operation@ == file_operation_label(e.operation)
                })
            },
{
    let event = match FileEvent::from_bytes(data) {
        Some(e) => e,
        None => {
            proof {
                assert(false);
            }
            return None;
        },
    };
    let filename = convert_result_to_string(event.filename.as_slice());
    let operation: &str = if event.operation == 1 { "Open" } else { "idk" };
    if filename.as_str().is_empty() {
        None
    } else {
        Some(FileReport { pid: event.pid, filename, operation: String::from_str(operation) })
    }
}

/// What a ring-buffer record amounts to once read.
#[derive(Debug)]
pub enum RecordReport {
    /// A process record.
    Process(ProcReport),
    /// A file record; `None` when it names no file.
    File(Option<FileReport>),
    /// A record of another kind, skipped.
    Skipped,
}

/// Whether `data` is long enough for the kind of record its header
/// announces.
pub open spec fn record_complete(data: Seq<u8>) -> bool {
    &&& data.len() >= 1
    &&& data[0] == 0 ==> data.len() >= PROC_EVENT_SIZE
    &&& data[0] == 1 ==> data.len() >= FILE_EVENT_SIZE
}

/// Reads a record according to its header byte.
pub fn handle_record(data: &[u8]) -> (report: RecordReport)
    requires
        record_complete(data@),
    ensures
        spec_record_kind(data@[0]) == RecordKind::Process <==> report is Process,
        spec_record_kind(data@[0]) == RecordKind::File <==> report is File,
        spec_record_kind(data@[0]) == RecordKind::Other <==> report is Skipped,
        report matches RecordReport::Process(r) ==> exists|e: ProcEvent|
            {
                &&& #[trigger] proc_event_layout(data@, e)
                &&& r.pid == e.pid
                &&& r.ppid == e.ppid
                &&& r.uid == e.uid
                &&& r.gid == e.gid
                &&& r.tgid == e.tgid
                &&& r.comm@ == crate::text::c_string_text(e.comm@)
                &&& r.filename@ == crate::text::c_string_text(e.filename@)
                &&& r.time_stamp == e.time_stamp
            },
        report matches RecordReport::File(f) ==> exists|e: FileEvent|
            {
                &&& #[trigger] file_event_layout(data@, e)
                &&& (f is None <==> crate::text::c_string_text(e.filename@).len() == 0)
                &&& (f matches Some(r) ==> {
                    &&& r.pid == e.pid
                    &&& r.filename@ == crate::text::c_string_text(e.filename@)
                    &&& r.operation@ == file_operation_label(e.operation)
                })
            },
{
    match record_kind(data) {
        RecordKind::Process => RecordReport::Process(handle_proc_event(data)),
        RecordKind::File => RecordReport::File(handle_file_event(data)),
        RecordKind::Other => RecordReport::Skipped,
    }
}

} // verus!
