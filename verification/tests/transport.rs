use herdr_client::endpoint::{ClientEndpointId, ProfileId};
use herdr_client::error::{ErrorKind, FramingError, IoError};
use herdr_client::reader::{
    read_warning, server_reader_thread, ClientLoopEvent, ReaderReply, ReaderStep, READ_PAUSE,
};
use herdr_client::transport::{
    write_to_local_server, write_to_server, EndpointFailure, EndpointRegistry,
    EndpointSendOutcome, LocalStream, SendReply, SendStep,
};

fn ssh() -> ClientEndpointId {
    ClientEndpointId::Ssh(ProfileId::new("build".into()))
}

fn io(kind: ErrorKind, message: &str) -> IoError {
    IoError::new(kind, message.into())
}

fn read(reply: ReaderReply<u32>) -> ReaderStep<u32> {
    server_reader_thread(&ssh(), 5, 4096, reply)
}

fn lost() -> ReaderStep<u32> {
    ReaderStep::Disconnect(ClientLoopEvent::ServerDisconnected {
        endpoint_id: ssh(),
        generation: 5,
    })
}

#[test]
fn the_reader_opens_polls_and_reads() {
    assert_eq!(read(ReaderReply::Opened(Ok(()))), ReaderStep::CheckQuit);
    assert_eq!(read(ReaderReply::Opened(Err(io(ErrorKind::Other, "bad stream")))), lost());
    assert_eq!(
        read(ReaderReply::Polled { should_quit: false }),
        ReaderStep::ReadMessage { max_frame_size: 4096 }
    );
    assert_eq!(read(ReaderReply::Polled { should_quit: true }), ReaderStep::Stop);
}

#[test]
fn messages_are_tagged_and_forwarded() {
    assert_eq!(
        read(ReaderReply::Read(Ok(42))),
        ReaderStep::Forward(ClientLoopEvent::ServerMessage {
            endpoint_id: ssh(),
            generation: 5,
            message: Box::new(42),
        })
    );
    assert_eq!(read(ReaderReply::Forwarded { delivered: true }), ReaderStep::CheckQuit);
    assert_eq!(read(ReaderReply::Forwarded { delivered: false }), ReaderStep::Stop);
}

#[test]
fn an_empty_stream_is_tried_again() {
    let empty = FramingError::Io {
        error: io(ErrorKind::WouldBlock, "not ready"),
        text: "I/O error: not ready".into(),
    };
    assert_eq!(read(ReaderReply::Read(Err(empty))), ReaderStep::Rest(READ_PAUSE));
    assert_eq!(READ_PAUSE, 1_000_000);
    assert_eq!(read(ReaderReply::Rested), ReaderStep::CheckQuit);
}

#[test]
fn a_broken_stream_is_reported() {
    let eof = FramingError::UnexpectedEof { text: "closed".into() };
    assert_eq!(read(ReaderReply::Read(Err(eof))), lost());
    let reset = FramingError::Io {
        error: io(ErrorKind::ConnectionReset, "reset"),
        text: "I/O error: reset".into(),
    };
    assert_eq!(read(ReaderReply::Read(Err(reset))), lost());
    let malformed = FramingError::Malformed { text: "bad tag".into() };
    assert_eq!(read(ReaderReply::Read(Err(malformed))), lost());
}

#[test]
fn the_local_server_answers_with_the_text_of_a_failure() {
    assert_eq!(
        write_to_local_server::<u32>(SendReply::Requested(9)),
        SendStep::Write(9)
    );
    assert_eq!(
        write_to_local_server::<u32>(SendReply::Written(Ok(()))),
        SendStep::Answer(Ok(()))
    );
    let failure = FramingError::Io {
        error: io(ErrorKind::BrokenPipe, "pipe"),
        text: "I/O error: pipe".into(),
    };
    let mut stream = LocalStream;
    assert_eq!(
        write_to_server::<LocalStream, u32>(&mut stream, SendReply::Written(Err(failure))),
        SendStep::Answer(Err(io(ErrorKind::Other, "I/O error: pipe")))
    );
}

fn failure(endpoint_id: ClientEndpointId, kind: ErrorKind, message: &str) -> EndpointFailure {
    EndpointFailure { endpoint_id, kind, message: message.into() }
}

fn settle(registry: &mut EndpointRegistry, outcome: EndpointSendOutcome) -> SendStep<u32> {
    write_to_server(registry, SendReply::Written(outcome))
}

#[test]
fn a_remote_endpoint_never_fails_the_caller() {
    let mut registry = EndpointRegistry::new(ssh());
    registry.record_failures(vec![failure(ssh(), ErrorKind::BrokenPipe, "gone")]);
    assert_eq!(
        write_to_server::<EndpointRegistry, u32>(&mut registry, SendReply::Requested(3)),
        SendStep::Write(3)
    );
    assert!(!registry.owes_reason(EndpointSendOutcome::NotSent));
    assert_eq!(settle(&mut registry, EndpointSendOutcome::NotSent), SendStep::Answer(Ok(())));
    assert_eq!(registry.take_failures().len(), 1);
    assert_eq!(registry.active_id(), &ssh());
}

#[test]
fn the_local_endpoint_names_its_first_failure() {
    let mut registry = EndpointRegistry::new(ClientEndpointId::Local);
    registry.record_failures(vec![
        failure(ssh(), ErrorKind::TimedOut, "other machine"),
        failure(ClientEndpointId::Local, ErrorKind::ConnectionReset, "first"),
    ]);
    registry.record_failures(vec![failure(
        ClientEndpointId::Local,
        ErrorKind::BrokenPipe,
        "second",
    )]);
    assert_eq!(settle(&mut registry, EndpointSendOutcome::Sent), SendStep::Answer(Ok(())));
    assert!(registry.owes_reason(EndpointSendOutcome::NotSent));
    assert_eq!(
        settle(&mut registry, EndpointSendOutcome::NotSent),
        SendStep::Answer(Err(io(ErrorKind::ConnectionReset, "first")))
    );
    assert!(registry.take_failures().is_empty());
}

#[test]
fn the_local_endpoint_is_unavailable_without_a_reason() {
    let mut registry = EndpointRegistry::new(ClientEndpointId::Local);
    registry.record_failures(vec![failure(ssh(), ErrorKind::TimedOut, "other machine")]);
    assert_eq!(
        settle(&mut registry, EndpointSendOutcome::NotSent),
        SendStep::Answer(Err(io(ErrorKind::BrokenPipe, "local endpoint is unavailable")))
    );
    assert!(registry.take_failures().is_empty());
}

#[test]
fn a_reader_forwards_in_order_and_ends_once() {
    let mut script = vec![
        Ok(1),
        Err(FramingError::Io {
            error: io(ErrorKind::WouldBlock, "not ready"),
            text: "I/O error: not ready".into(),
        }),
        Ok(2),
        Ok(3),
        Err(FramingError::UnexpectedEof { text: "closed".into() }),
        Ok(4),
    ]
    .into_iter();
    let mut forwarded = Vec::new();
    let mut rests = 0;
    let mut reply = ReaderReply::Opened(Ok(()));
    loop {
        reply = match read(reply) {
            ReaderStep::CheckQuit => ReaderReply::Polled { should_quit: false },
            ReaderStep::ReadMessage { .. } => ReaderReply::Read(script.next().unwrap()),
            ReaderStep::Forward(event) => {
                forwarded.push(event);
                ReaderReply::Forwarded { delivered: true }
            }
            ReaderStep::Rest(_) => {
                rests += 1;
                ReaderReply::Rested
            }
            ReaderStep::Disconnect(event) => {
                forwarded.push(event);
                break;
            }
            ReaderStep::Stop => panic!("the reader stops early"),
        };
    }
    let message = |message: u32| ClientLoopEvent::ServerMessage {
        endpoint_id: ssh(),
        generation: 5,
        message: Box::new(message),
    };
    assert_eq!(
        forwarded,
        vec![
            message(1),
            message(2),
            message(3),
            ClientLoopEvent::ServerDisconnected { endpoint_id: ssh(), generation: 5 },
        ]
    );
    assert_eq!(rests, 1);
    assert_eq!(script.next(), Some(Ok(4)));
}

#[test]
fn only_unexpected_read_failures_are_warned_of() {
    let failed = |kind| FramingError::Io { error: io(kind, "x"), text: "I/O error: x".into() };
    assert_eq!(read_warning(&FramingError::UnexpectedEof { text: "closed".into() }), None);
    assert_eq!(read_warning(&failed(ErrorKind::WouldBlock)), None);
    assert_eq!(
        read_warning(&failed(ErrorKind::ConnectionReset)),
        Some(&"I/O error: x".to_string())
    );
    assert_eq!(
        read_warning(&FramingError::Malformed { text: "bad tag".into() }),
        Some(&"bad tag".to_string())
    );
}
