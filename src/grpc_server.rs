//! The server: its three queues, its shutdown trigger, the loggers and
//! event reports that feed the queues, and the decisions of its shutdown.

use vstd::prelude::*;

use async_std::channel::{Receiver, SendError, Sender};

use crate::channel;
use crate::events;
use crate::grpc_logger::GrpcLogger;
use crate::logging::{name_field, Level, LoggerModel};
use crate::schema::{
    fields_model, DumpMsgToFileResponse, FieldValue, ListenForEventsResponse, LogField,
    LogMessage, ProcessState,
};
use crate::time;

verus! {

/// The firing half of the shutdown signal.
#[verifier::external_type_specification]
#[verifier::external_body]
pub struct ExTrigger(triggered::Trigger);

/// The waiting half of the shutdown signal; every clone sees it fire.
#[verifier::external_type_specification]
#[verifier::external_body]
pub struct ExListener(triggered::Listener);

/// Relies on `triggered::trigger`: a new, unfired trigger and a listener
/// bound to it.
#[verifier::external_body]
fn new_trigger() -> (triggered::Trigger, triggered::Listener) {
    triggered::trigger()
}

/// Relies on `Trigger::trigger`: fires the signal for every listener; only
/// the first call has an effect.
#[verifier::external_body]
fn fire(trigger: &triggered::Trigger) {
    trigger.trigger()
}

/// Relies on `Listener`'s `Clone`: another listener on the same trigger.
#[verifier::external_body]
fn clone_listener(listener: &triggered::Listener) -> triggered::Listener {
    listener.clone()
}

/// Failure to queue an event or a file payload.
#[derive(Clone, Copy, Debug, PartialEq, Eq, Structural)]
pub enum EmitError {
    /// The queue is closed: the server is shutting down.
    ChannelClosed,
}

/// The outcome of a report once its queue has answered: success exactly
/// when the item was queued.
pub fn emit_outcome<T>(sent: Result<(), SendError<T>>) -> (r: Result<(), EmitError>)
    ensures
        r == (if sent is Ok {
            Ok::<(), EmitError>(())
        } else {
            Err::<(), EmitError>(EmitError::ChannelClosed)
        }),
{
    match sent {
        Ok(()) => Ok(()),
        Err(_) => Err(EmitError::ChannelClosed),
    }
}

/// How long `stop_server` waits between two looks at the queues.
pub const STOP_POLL_MILLIS: u64 = 50;

/// What shutdown does after a look at the queues.
#[derive(Clone, Copy, Debug, PartialEq, Eq, Structural)]
pub enum StopAction {
    /// Wait one poll interval and look again.
    Wait,
    /// Fire the shutdown signal.
    Shutdown,
}

/// The shutdown decision: once the queues are closed, wait while anything
/// is still queued and the timeout has not elapsed; shut down otherwise.
pub open spec fn stop_decision(queues_empty: bool, elapsed_millis: u128, timeout_millis: u64) -> StopAction {
    if !queues_empty && elapsed_millis < timeout_millis {
        StopAction::Wait
    } else {
        StopAction::Shutdown
    }
}

/// The shutdown decision after a look at the queues, `elapsed_millis`
/// after they were closed.
pub fn stop_step(queues_empty: bool, elapsed_millis: u128, timeout_millis: u64) -> (r: StopAction)
    ensures
        r == stop_decision(queues_empty, elapsed_millis, timeout_millis),
{
    if !queues_empty && elapsed_millis < timeout_millis as u128 {
        StopAction::Wait
    } else {
        StopAction::Shutdown
    }
}

/// Once `timeout_millis` have elapsed, shutdown proceeds at the next look,
/// however much is still queued: the wait lasts at most the timeout plus
/// one poll interval.
pub proof fn lemma_stop_is_bounded(queues_empty: bool, elapsed_millis: u128, timeout_millis: u64)
    requires
        elapsed_millis >= timeout_millis,
    ensures
        stop_decision(queues_empty, elapsed_millis, timeout_millis) == StopAction::Shutdown,
{
}

/// Whether shutdown finds nothing left to deliver, given whether each of the
/// log, file and event queues is empty.
pub fn all_queues_empty(log_empty: bool, file_empty: bool, event_empty: bool) -> (r: bool)
    ensures
        r == (log_empty && file_empty && event_empty),
{
    log_empty && file_empty && event_empty
}

/// A queue: its sending and its receiving half.
#[verifier::reject_recursive_types(T)]
pub struct AsyncQueue<T> {
    sender: Sender<T>,
    receiver: Receiver<T>,
}

impl<T> AsyncQueue<T> {
    /// A new open, empty queue.
    fn open() -> AsyncQueue<T> {
        let (sender, receiver) = channel::unbounded();
        AsyncQueue { sender, receiver }
    }
}

/// What a server is configured with.
pub struct ServerModel {
    pub threshold: Level,
    pub debug: bool,
    pub listen_addr: Seq<char>,
}

/// The relay server: the log, file and event queues and the shutdown
/// signal.
pub struct GRPCServer {
    log_level: Level,
    enable_debug: bool,
    listen_addr: String,
    trigger: triggered::Trigger,
    listener: triggered::Listener,
    log_channel: AsyncQueue<LogMessage>,
    file_channel: AsyncQueue<DumpMsgToFileResponse>,
    event_channel: AsyncQueue<ListenForEventsResponse>,
}

impl View for GRPCServer {
    type V = ServerModel;

    closed spec fn view(&self) -> ServerModel {
        ServerModel {
            threshold: self.log_level,
            debug: self.enable_debug,
            listen_addr: self.listen_addr@,
        }
    }
}

/// A server that is to listen on the socket path `listen_addr`, with open,
/// empty queues and the threshold `Info`.
pub fn new_server(listen_addr: &str, enable_debug: bool) -> (r: GRPCServer)
    ensures
        r@ == (ServerModel { threshold: Level::Info, debug: enable_debug, listen_addr: listen_addr@ }),
{
    let (trigger, listener) = new_trigger();
    GRPCServer {
        log_level: Level::Info,
        enable_debug,
        listen_addr: listen_addr.to_owned(),
        trigger,
        listener,
        log_channel: AsyncQueue::open(),
        file_channel: AsyncQueue::open(),
        event_channel: AsyncQueue::open(),
    }
}

impl GRPCServer {
    /// The sending half of the log queue.
    pub closed spec fn log_queue(&self) -> Sender<LogMessage> {
        self.log_channel.sender
    }

    /// A logger on the log queue with no base fields and the server's
    /// threshold.
    pub fn new_logger(&self) -> (r: GrpcLogger)
        ensures
            r@ == (LoggerModel { base: Seq::empty(), threshold: self@.threshold }),
            r.mirrors() == self@.debug,
            r.queue() == self.log_queue(),
    {
        let fields: Vec<LogField> = Vec::new();
        assert(fields_model(fields@) =~= Seq::empty());
        GrpcLogger::new(
            self.log_level,
            self.enable_debug,
            channel::clone_sender(&self.log_channel.sender),
            fields,
        )
    }

    /// A logger on the log queue with the server's threshold whose one base
    /// field, `logger`, holds `name`.
    pub fn new_named_logger(&self, name: &str) -> (r: GrpcLogger)
        ensures
            r@ == (LoggerModel { base: seq![name_field(name@)], threshold: self@.threshold }),
            r.mirrors() == self@.debug,
            r.queue() == self.log_queue(),
    {
        let log_field = LogField { name: "logger".to_owned(), field: Some(FieldValue::Str(name.to_owned())) };
        let mut fields = Vec::new();
        fields.push(log_field);
        assert(fields_model(fields@) =~= seq![name_field(name@)]);
        GrpcLogger::new(
            self.log_level,
            self.enable_debug,
            channel::clone_sender(&self.log_channel.sender),
            fields,
        )
    }

    /// Sets the threshold of the loggers made from now on.
    pub fn set_log_level(&mut self, log_level: Level)
        ensures
            final(self)@ == (ServerModel { threshold: log_level, ..old(self)@ }),
    {
        self.log_level = log_level
    }

    /// Queues a request to write `message` to the file `name` (see
    /// [`events::file_payload`]); fails once shutdown has closed the queue.
    pub fn write_message_to_file(&self, name: &str, message: &[u8]) -> (r: Result<(), EmitError>)
        ensures
            r is Ok || r == Err::<(), EmitError>(EmitError::ChannelClosed),
    {
        let payload = events::file_payload(name, message);
        emit_outcome(channel::send(&self.file_channel.sender, payload))
    }

    /// Queues a process start or end event stamped with the current time
    /// (see [`events::process_event`]); fails once shutdown has closed the
    /// queue.
    pub fn send_process_event(
        &self,
        process_state: ProcessState,
        process_name: &str,
        process_id: u32,
        cr3: &str,
    ) -> (r: Result<(), EmitError>)
        ensures
            r is Ok || r == Err::<(), EmitError>(EmitError::ChannelClosed),
    {
        let event = events::process_event(process_state, process_name, process_id, cr3, time::now());
        self.emit_event(event)
    }

    /// Queues a bug-check event (see [`events::bsod_event`]); fails once
    /// shutdown has closed the queue.
    pub fn send_bsod_event(&self, code: i64) -> (r: Result<(), EmitError>)
        ensures
            r is Ok || r == Err::<(), EmitError>(EmitError::ChannelClosed),
    {
        self.emit_event(events::bsod_event(code, time::now()))
    }

    /// Queues a ready event (see [`events::ready_event`]); fails once
    /// shutdown has closed the queue.
    pub fn send_ready_event(&self) -> (r: Result<(), EmitError>)
        ensures
            r is Ok || r == Err::<(), EmitError>(EmitError::ChannelClosed),
    {
        self.emit_event(events::ready_event(time::now()))
    }

    /// Queues a finished event (see [`events::termination_event`]); fails
    /// once shutdown has closed the queue.
    pub fn send_termination_event(&self) -> (r: Result<(), EmitError>)
        ensures
            r is Ok || r == Err::<(), EmitError>(EmitError::ChannelClosed),
    {
        self.emit_event(events::termination_event(time::now()))
    }

    /// Queues an error event (see [`events::error_event`]); fails once
    /// shutdown has closed the queue.
    pub fn send_error_event(&self, message: &str) -> (r: Result<(), EmitError>)
        ensures
            r is Ok || r == Err::<(), EmitError>(EmitError::ChannelClosed),
    {
        self.emit_event(events::error_event(message, time::now()))
    }

    /// Queues an in-memory detection event (see
    /// [`events::in_mem_detection_event`]); fails once shutdown has closed
    /// the queue.
    pub fn send_in_mem_detection_event(&self, message: &str) -> (r: Result<(), EmitError>)
        ensures
            r is Ok || r == Err::<(), EmitError>(EmitError::ChannelClosed),
    {
        self.emit_event(events::in_mem_detection_event(message, time::now()))
    }

    fn emit_event(&self, event: ListenForEventsResponse) -> (r: Result<(), EmitError>)
        ensures
            r is Ok || r == Err::<(), EmitError>(EmitError::ChannelClosed),
    {
        emit_outcome(channel::send(&self.event_channel.sender, event))
    }

    /// The first step of shutdown: closes the three queues, so that every
    /// later log call or report fails, while what is queued can still be
    /// received. Closing again changes nothing.
    pub fn close_channels(&self) {
        channel::close(&self.log_channel.sender);
        channel::close(&self.file_channel.sender);
        channel::close(&self.event_channel.sender);
    }

    /// Whether all three queues are empty now (see [`all_queues_empty`]).
    pub fn queues_empty(&self) -> bool {
        all_queues_empty(
            channel::is_empty(&self.log_channel.sender),
            channel::is_empty(&self.file_channel.sender),
            channel::is_empty(&self.event_channel.sender),
        )
    }

    /// The last step of shutdown: fires the signal that ends serving.
    /// Firing again changes nothing.
    pub fn trigger_shutdown(&self) {
        fire(&self.trigger)
    }

    /// The socket path that the server listens on.
    pub fn listen_addr(&self) -> (r: &str)
        ensures
            r@ == self@.listen_addr,
    {
        self.listen_addr.as_str()
    }

    /// A receiver of the log queue, competing with the others.
    pub fn log_receiver(&self) -> Receiver<LogMessage> {
        channel::clone_receiver(&self.log_channel.receiver)
    }

    /// A receiver of the file-payload queue, competing with the others.
    pub fn file_receiver(&self) -> Receiver<DumpMsgToFileResponse> {
        channel::clone_receiver(&self.file_channel.receiver)
    }

    /// A receiver of the event queue, competing with the others.
    pub fn event_receiver(&self) -> Receiver<ListenForEventsResponse> {
        channel::clone_receiver(&self.event_channel.receiver)
    }

    /// A listener for the shutdown signal.
    pub fn shutdown_listener(&self) -> triggered::Listener {
        clone_listener(&self.listener)
    }
}

} // verus!
