//! The streaming adapters: one per connected client, each relaying a queue
//! to its client until the queue is drained or the client goes away.

use vstd::prelude::*;

use async_std::channel::Receiver;

use crate::channel;
use crate::schema::{DumpMsgToFileResponse, ListenForEventsResponse, LogMessage, ReadLogResponse};

verus! {

/// What an adapter saw while it waited.
pub enum RelayEvent<T> {
    /// The queue handed over an item.
    Item(T),
    /// The queue is closed and nothing is left in it.
    QueueDrained,
    /// The client's inbound stream ended.
    ClientGone,
}

/// What an adapter does next.
pub enum RelayAction<T> {
    /// Send this item to the client and wait again.
    Forward(T),
    /// End the client's stream.
    End,
}

/// The relay decision: forward each item, end the stream once the queue is
/// drained or the client has gone.
pub fn relay_step<T>(event: RelayEvent<T>) -> (r: RelayAction<T>)
    ensures
        match event {
            RelayEvent::Item(x) => r matches RelayAction::Forward(y) && y == x,
            _ => r is End,
        },
{
    match event {
        RelayEvent::Item(x) => RelayAction::Forward(x),
        _ => RelayAction::End,
    }
}

/// The item of the log stream that carries `msg`, with empty trace and
/// span ids.
pub fn log_response(msg: LogMessage) -> (r: ReadLogResponse)
    ensures
        r.log == Some(msg),
        r.trace_id@.len() == 0,
        r.span_id@.len() == 0,
{
    ReadLogResponse { log: Some(msg), trace_id: Vec::new(), span_id: Vec::new() }
}

/// The relay decision for the log stream: each queued message is forwarded
/// wrapped as a log-stream item.
pub fn log_relay_step(event: RelayEvent<LogMessage>) -> (r: RelayAction<ReadLogResponse>)
    ensures
        match event {
            RelayEvent::Item(x) => r matches RelayAction::Forward(y) && y.log == Some(x)
                && y.trace_id@.len() == 0 && y.span_id@.len() == 0,
            _ => r is End,
        },
{
    match relay_step(event) {
        RelayAction::Forward(msg) => RelayAction::Forward(log_response(msg)),
        RelayAction::End => RelayAction::End,
    }
}

/// What a read of the client's inbound stream gave.
#[derive(Clone, Copy, Debug, PartialEq, Eq, Structural)]
pub enum InboundFrame {
    /// A request, whose content is ignored.
    Request,
    /// A frame that could not be read; the stream is still open.
    ReadError,
    /// The client closed its inbound stream.
    Closed,
}

/// Whether the adapter stops watching the inbound stream: only its closing
/// ends the watch; requests and bad frames are tolerated.
pub fn inbound_ends_watch(frame: InboundFrame) -> (r: bool)
    ensures
        r <==> frame == InboundFrame::Closed,
{
    match frame {
        InboundFrame::Closed => true,
        _ => false,
    }
}

/// The adapter behind the log stream.
pub struct GRPCLogService {
    receiver: Receiver<LogMessage>,
}

impl GRPCLogService {
    /// The receiver that this adapter drains.
    pub closed spec fn source(&self) -> Receiver<LogMessage> {
        self.receiver
    }

    /// An adapter that drains `receiver`.
    pub fn new(receiver: Receiver<LogMessage>) -> (r: GRPCLogService)
        ensures
            r.source() == receiver,
    {
        GRPCLogService { receiver }
    }

    /// A receiver for one more client, competing with the others.
    pub fn receiver(&self) -> Receiver<LogMessage> {
        channel::clone_receiver(&self.receiver)
    }
}

/// The adapter behind the file-payload and event streams.
pub struct GRPCVmiService {
    file_receiver: Receiver<DumpMsgToFileResponse>,
    event_receiver: Receiver<ListenForEventsResponse>,
}

impl GRPCVmiService {
    /// The receiver of file payloads that this adapter drains.
    pub closed spec fn file_source(&self) -> Receiver<DumpMsgToFileResponse> {
        self.file_receiver
    }

    /// The receiver of events that this adapter drains.
    pub closed spec fn event_source(&self) -> Receiver<ListenForEventsResponse> {
        self.event_receiver
    }

    /// An adapter that drains `file_receiver` and `event_receiver`.
    pub fn new(
        file_receiver: Receiver<DumpMsgToFileResponse>,
        event_receiver: Receiver<ListenForEventsResponse>,
    ) -> (r: GRPCVmiService)
        ensures
            r.file_source() == file_receiver,
            r.event_source() == event_receiver,
    {
        GRPCVmiService { file_receiver, event_receiver }
    }

    /// A file-payload receiver for one more client, competing with the
    /// others.
    pub fn file_receiver(&self) -> Receiver<DumpMsgToFileResponse> {
        channel::clone_receiver(&self.file_receiver)
    }

    /// An event receiver for one more client, competing with the others.
    pub fn event_receiver(&self) -> Receiver<ListenForEventsResponse> {
        channel::clone_receiver(&self.event_receiver)
    }
}

} // verus!
