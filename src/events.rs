//! Building the items of the event and file-payload streams.

use vstd::prelude::*;

use crate::schema::{
    DumpMsgToFileResponse, Event, EventMessage, ListenForEventsResponse, ProcessInfo,
    ProcessState, Timestamp,
};

verus! {

/// Whether `info` describes the process `name`, `pid`, `cr3`.
pub open spec fn describes(info: ProcessInfo, name: Seq<char>, pid: u32, cr3: Seq<char>) -> bool {
    &&& info.process_name@ == name
    &&& info.process_id == pid
    &&& info.cr3@ == cr3
}

/// A copy of `bytes`.
fn copy_bytes(bytes: &[u8]) -> (r: Vec<u8>)
    ensures
        r@ == bytes@,
{
    let mut out: Vec<u8> = Vec::with_capacity(bytes.len());
    let mut i: usize = 0;
    while i < bytes.len()
        invariant
            i <= bytes@.len(),
            out@ == bytes@.subrange(0, i as int),
        decreases bytes@.len() - i,
    {
        out.push(bytes[i]);
        assert(bytes@.subrange(0, i + 1) =~= bytes@.subrange(0, i as int).push(bytes@[i as int]));
        i = i + 1;
    }
    assert(bytes@.subrange(0, bytes@.len() as int) =~= bytes@);
    out
}

/// The payload that asks a client to write `message` to the file `name`.
pub fn file_payload(name: &str, message: &[u8]) -> (r: DumpMsgToFileResponse)
    ensures
        r.filename@ == name@,
        r.message@ == message@,
{
    DumpMsgToFileResponse { filename: name.to_owned(), message: copy_bytes(message) }
}

/// The event that a process `name` with id `pid` and page-table base `cr3`
/// started or ended, stamped `at`.
pub fn process_event(
    process_state: ProcessState,
    process_name: &str,
    process_id: u32,
    cr3: &str,
    at: Timestamp,
) -> (r: ListenForEventsResponse)
    ensures
        r.timestamp == Some(at),
        match process_state {
            ProcessState::Started => {
                &&& r.event == Event::VmProcessStart
                &&& r.message matches Some(EventMessage::VmProcessStart(info))
                    && describes(info, process_name@, process_id, cr3@)
            },
            ProcessState::Terminated => {
                &&& r.event == Event::VmProcessEnd
                &&& r.message matches Some(EventMessage::VmProcessEnd(info))
                    && describes(info, process_name@, process_id, cr3@)
            },
        },
{
    let info = ProcessInfo {
        process_name: process_name.to_owned(),
        process_id,
        cr3: cr3.to_owned(),
    };
    let (event, message) = match process_state {
        ProcessState::Started => (Event::VmProcessStart, EventMessage::VmProcessStart(info)),
        ProcessState::Terminated => (Event::VmProcessEnd, EventMessage::VmProcessEnd(info)),
    };
    ListenForEventsResponse { event, timestamp: Some(at), message: Some(message) }
}

/// The event that the guest stopped with bug-check `code`, stamped `at`.
pub fn bsod_event(code: i64, at: Timestamp) -> (r: ListenForEventsResponse)
    ensures
        r.event == Event::BsodDetected,
        r.timestamp == Some(at),
        r.message matches Some(EventMessage::BsodDetected { code: c }) && c == code,
{
    ListenForEventsResponse {
        event: Event::BsodDetected,
        timestamp: Some(at),
        message: Some(EventMessage::BsodDetected { code }),
    }
}

/// The event that introspection is ready, stamped `at`.
pub fn ready_event(at: Timestamp) -> (r: ListenForEventsResponse)
    ensures
        r.event == Event::VmiReady,
        r.timestamp == Some(at),
        r.message matches Some(EventMessage::Ready),
{
    ListenForEventsResponse { event: Event::VmiReady, timestamp: Some(at), message: Some(EventMessage::Ready) }
}

/// The event that introspection has finished, stamped `at`.
pub fn termination_event(at: Timestamp) -> (r: ListenForEventsResponse)
    ensures
        r.event == Event::VmiFinished,
        r.timestamp == Some(at),
        r.message matches Some(EventMessage::Finished),
{
    ListenForEventsResponse {
        event: Event::VmiFinished,
        timestamp: Some(at),
        message: Some(EventMessage::Finished),
    }
}

/// The event that introspection met the error `message`, stamped `at`.
pub fn error_event(message: &str, at: Timestamp) -> (r: ListenForEventsResponse)
    ensures
        r.event == Event::Error,
        r.timestamp == Some(at),
        r.message matches Some(EventMessage::Error { message: m }) && m@ == message@,
{
    ListenForEventsResponse {
        event: Event::Error,
        timestamp: Some(at),
        message: Some(EventMessage::Error { message: message.to_owned() }),
    }
}

/// The event that an in-memory detection `detection` was made, stamped `at`.
pub fn in_mem_detection_event(detection: &str, at: Timestamp) -> (r: ListenForEventsResponse)
    ensures
        r.event == Event::InMemDetection,
        r.timestamp == Some(at),
        r.message matches Some(EventMessage::InMemDetection { detection: d }) && d@ == detection@,
{
    ListenForEventsResponse {
        event: Event::InMemDetection,
        timestamp: Some(at),
        message: Some(EventMessage::InMemDetection { detection: detection.to_owned() }),
    }
}

} // verus!
