use vmicore::events::{
    bsod_event, error_event, file_payload, in_mem_detection_event, process_event, ready_event,
    termination_event,
};
use vmicore::schema::{Event, EventMessage, LogLevel, LogMessage, ProcessState, Timestamp};
use vmicore::streaming::{
    inbound_ends_watch, log_relay_step, log_response, relay_step, GRPCLogService, GRPCVmiService,
    InboundFrame, RelayAction, RelayEvent,
};

const AT: Timestamp = Timestamp { seconds: 1_700_000_000, nanos: 5 };

#[test]
fn process_events_carry_the_process() {
    let started = process_event(ProcessState::Started, "evil.exe", 4242, "0x1000", AT);
    assert_eq!(started.event, Event::VmProcessStart);
    assert_eq!(started.timestamp, Some(AT));
    match started.message {
        Some(EventMessage::VmProcessStart(info)) => {
            assert_eq!((info.process_name.as_str(), info.process_id, info.cr3.as_str()), ("evil.exe", 4242, "0x1000"));
        }
        other => panic!("unexpected payload {other:?}"),
    }
    let ended = process_event(ProcessState::Terminated, "a.exe", 1, "0x2000", AT);
    assert_eq!(ended.event, Event::VmProcessEnd);
    assert!(matches!(ended.message, Some(EventMessage::VmProcessEnd(ref i)) if i.process_name == "a.exe" && i.cr3 == "0x2000"));
}

#[test]
fn simple_events_carry_their_payload() {
    let bsod = bsod_event(0x7b, AT);
    assert_eq!(bsod.event, Event::BsodDetected);
    assert!(matches!(bsod.message, Some(EventMessage::BsodDetected { code: 0x7b })));
    let ready = ready_event(AT);
    assert_eq!(ready.event, Event::VmiReady);
    assert!(matches!(ready.message, Some(EventMessage::Ready)));
    let done = termination_event(AT);
    assert_eq!(done.event, Event::VmiFinished);
    assert!(matches!(done.message, Some(EventMessage::Finished)));
    let err = error_event("oops", AT);
    assert_eq!(err.event, Event::Error);
    assert!(matches!(err.message, Some(EventMessage::Error { ref message }) if message == "oops"));
    let det = in_mem_detection_event("shellcode", AT);
    assert_eq!(det.event, Event::InMemDetection);
    assert!(matches!(det.message, Some(EventMessage::InMemDetection { ref detection }) if detection == "shellcode"));
    assert_eq!(det.timestamp, Some(AT));
}

#[test]
fn file_payload_copies_name_and_bytes() {
    let payload = file_payload("out.bin", &[1, 2, 3, 255]);
    assert_eq!(payload.filename, "out.bin");
    assert_eq!(payload.message, vec![1, 2, 3, 255]);
    let empty = file_payload("", &[]);
    assert!(empty.filename.is_empty() && empty.message.is_empty());
}

#[test]
fn relay_forwards_items_and_ends_on_drain_or_departure() {
    assert!(matches!(relay_step(RelayEvent::Item(7)), RelayAction::Forward(7)));
    assert!(matches!(relay_step::<u8>(RelayEvent::QueueDrained), RelayAction::End));
    assert!(matches!(relay_step::<u8>(RelayEvent::ClientGone), RelayAction::End));
}

#[test]
fn log_relay_wraps_messages() {
    let msg = LogMessage { time_unix: 3, level: LogLevel::Warn, msg: "w".to_string(), fields: Vec::new() };
    match log_relay_step(RelayEvent::Item(msg)) {
        RelayAction::Forward(resp) => {
            let log = resp.log.expect("message carried");
            assert_eq!(log.msg, "w");
            assert!(resp.trace_id.is_empty() && resp.span_id.is_empty());
        }
        RelayAction::End => panic!("item not forwarded"),
    }
    assert!(matches!(log_relay_step(RelayEvent::ClientGone), RelayAction::End));
    let direct = log_response(LogMessage { time_unix: 4, level: LogLevel::Info, msg: "i".to_string(), fields: Vec::new() });
    assert_eq!(direct.log.unwrap().time_unix, 4);
}

#[test]
fn only_a_closed_inbound_stream_ends_the_watch() {
    assert!(inbound_ends_watch(InboundFrame::Closed));
    assert!(!inbound_ends_watch(InboundFrame::Request));
    assert!(!inbound_ends_watch(InboundFrame::ReadError));
}

#[test]
fn services_hand_out_competing_receivers() {
    let (log_tx, log_rx) = async_std::channel::unbounded();
    let (file_tx, file_rx) = async_std::channel::unbounded();
    let (event_tx, event_rx) = async_std::channel::unbounded();
    let logs = GRPCLogService::new(log_rx);
    let vmi = GRPCVmiService::new(file_rx, event_rx);
    log_tx.try_send(LogMessage { time_unix: 1, level: LogLevel::Info, msg: "x".to_string(), fields: Vec::new() }).unwrap();
    file_tx.try_send(file_payload("f", &[9])).unwrap();
    event_tx.try_send(ready_event(AT)).unwrap();
    assert_eq!(logs.receiver().try_recv().unwrap().msg, "x");
    assert_eq!(vmi.file_receiver().try_recv().unwrap().filename, "f");
    assert_eq!(vmi.event_receiver().try_recv().unwrap().event, Event::VmiReady);
}
