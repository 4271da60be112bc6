use vstd::prelude::*;

verus! {

/// A kernel event in the form the agent publishes and the server stores:
/// every field is text or a plain number.
#[derive(Debug, Hash)]
pub struct TelemetryEvent {
    pub event_type: String,
    pub pid: u32,
    pub ppid: u32,
    pub uid: u32,
    pub gid: u32,
    pub tgid: u64,
    pub comm: String,
    pub filename: String,
    pub dst_ip: String,
    pub dst_port: String,
    pub time_stamp: String,
}

/// The contents of a [`TelemetryEvent`], its text fields as character
/// sequences.
pub struct TelemetryEventView {
    pub event_type: Seq<char>,
    pub pid: u32,
    pub ppid: u32,
    pub uid: u32,
    pub gid: u32,
    pub tgid: u64,
    pub comm: Seq<char>,
    pub filename: Seq<char>,
    pub dst_ip: Seq<char>,
    pub dst_port: Seq<char>,
    pub time_stamp: Seq<char>,
}

impl View for TelemetryEvent {
    type V = TelemetryEventView;

    open spec fn view(&self) -> TelemetryEventView {
        TelemetryEventView {
            event_type: self.event_type@,
            pid: self.pid,
            ppid: self.ppid,
            uid: self.uid,
            gid: self.gid,
            tgid: self.tgid,
            comm: self.comm@,
            filename: self.filename@,
            dst_ip: self.dst_ip@,
            dst_port: self.dst_port@,
            time_stamp: self.time_stamp@,
        }
    }
}

impl Default for TelemetryEvent {
    /// An event with empty text fields and zero numbers.
    fn default() -> (e: TelemetryEvent)
        ensures
            e@.event_type.len() == 0,
            e@.comm.len() == 0,
            e@.filename.len() == 0,
            e@.dst_ip.len() == 0,
            e@.dst_port.len() == 0,
            e@.time_stamp.len() == 0,
            e.pid == 0 && e.ppid == 0 && e.uid == 0 && e.gid == 0 && e.tgid == 0,
    {
        TelemetryEvent {
            event_type: String::new(),
            pid: 0,
            ppid: 0,
            uid: 0,
            gid: 0,
            tgid: 0,
            comm: String::new(),
            filename: String::new(),
            dst_ip: String::new(),
            dst_port: String::new(),
            time_stamp: String::new(),
        }
    }
}

} // verus!
