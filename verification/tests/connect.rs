use herdr_client::connect::{
    connect_once, handshake_error, ConnectReply, ConnectStep, Handshake,
    HandshakeRequest, RenderEncoding, SshConnectOptions, SshSupervisorEvent,
};
use herdr_client::endpoint::{
    ClientEndpointId, ClientEndpointStatus, EndpointNegotiation, ProfileId, SavedSshEndpoint,
};
use herdr_client::error::{ClientError, ErrorKind, FramingError, IoError};
use herdr_client::supervisor::SshSupervisors;
use herdr_client::task::{SshConnectTask, TaskReply, TaskStep};

type Reply = ConnectReply<&'static str, &'static str, &'static str>;
type Step = ConnectStep<(u16, u16), &'static str, &'static str, &'static str>;
type Event = SshSupervisorEvent<&'static str, &'static str, &'static str>;

fn profile() -> SavedSshEndpoint {
    SavedSshEndpoint {
        id: ProfileId::new("0123456789abcdef0123456789abcdef".into()),
        label: "Build".into(),
        target: "build".into(),
        session: "agents".into(),
        enabled: true,
    }
}

fn endpoint() -> ClientEndpointId {
    ClientEndpointId::Ssh(profile().id)
}

fn options() -> SshConnectOptions<(u16, u16)> {
    SshConnectOptions {
        cols: 120,
        rows: 40,
        cell_width_px: 9,
        cell_height_px: 18,
        pixel_geometry_exact: true,
        surface_size: (100, 38),
        endpoint_keybindings: true,
        mouse_capture: false,
    }
}

fn io(kind: ErrorKind, message: &str) -> IoError {
    IoError::new(kind, message.into())
}

fn step(reply: Reply) -> Step {
    connect_once(&profile(), options(), endpoint(), 7, reply)
}

fn failed(kind: ErrorKind, message: &str) -> Step {
    ConnectStep::Failed { endpoint_id: endpoint(), error: io(kind, message) }
}

#[test]
fn an_attempt_starts_with_the_saved_endpoint() {
    assert_eq!(
        step(ConnectReply::Started),
        ConnectStep::Connect {
            profile_id: "0123456789abcdef0123456789abcdef".into(),
            target: "build".into(),
            session: "agents".into(),
        }
    );
}

#[test]
fn a_connection_failure_names_the_way_out_only_where_a_person_is_needed() {
    assert_eq!(
        step(ConnectReply::ConnectFailed {
            error: io(ErrorKind::PermissionDenied, "host key is unknown"),
            needs_attention: true,
            bootstrap_command: "herdr --remote build".into(),
        }),
        failed(
            ErrorKind::PermissionDenied,
            "host key is unknown. Run `herdr --remote build` interactively to approve setup, then \
             restart this client",
        )
    );
    assert_eq!(
        step(ConnectReply::ConnectFailed {
            error: io(ErrorKind::TimedOut, "timed out"),
            needs_attention: false,
            bootstrap_command: "herdr --remote build".into(),
        }),
        failed(ErrorKind::TimedOut, "timed out")
    );
}

#[test]
fn the_handshake_carries_the_options() {
    assert_eq!(
        step(ConnectReply::Connected),
        ConnectStep::Handshake(HandshakeRequest {
            cols: 120,
            rows: 40,
            cell_width_px: 9,
            cell_height_px: 18,
            pixel_geometry_exact: true,
            surface_size: Some((100, 38)),
            endpoint_keybindings: true,
            mouse_capture: false,
            trailing_flag: false,
        })
    );
}

#[test]
fn a_failed_handshake_ends_the_attempt() {
    assert_eq!(
        step(ConnectReply::HandshakeFailed(ClientError::HandshakeRejected {
            version: 3,
            error: "too old".into(),
        })),
        failed(ErrorKind::Unsupported, "too old")
    );
}

#[test]
fn only_semantic_frames_are_accepted() {
    assert_eq!(
        step(ConnectReply::Handshaken(Handshake {
            encoding: RenderEncoding::Other,
            endpoint_methods: None,
            endpoint_capabilities: None,
        })),
        failed(
            ErrorKind::InvalidData,
            "SSH endpoint did not negotiate the semantic client shell",
        )
    );
    assert_eq!(
        step(ConnectReply::Handshaken(Handshake {
            encoding: RenderEncoding::SemanticFrame,
            endpoint_methods: Some(vec!["ping".into()]),
            endpoint_capabilities: None,
        })),
        ConnectStep::Negotiate { methods: vec!["ping".into()], capabilities: vec![] }
    );
}

#[test]
fn both_features_are_needed() {
    for (surface_interest, health_check) in [(false, false), (false, true), (true, false)] {
        assert_eq!(
            step(ConnectReply::Negotiated(EndpointNegotiation {
                agreed: "little",
                surface_interest,
                health_check,
            })),
            failed(
                ErrorKind::Unsupported,
                "Build does not support safe multi-machine lifecycle; run `herdr --remote build` \
                 interactively to update it",
            )
        );
    }
    let full = EndpointNegotiation { agreed: "all", surface_interest: true, health_check: true };
    assert_eq!(step(ConnectReply::Negotiated(full)), ConnectStep::CloneReader("all"));
}

#[test]
fn the_split_connection_is_reported() {
    assert_eq!(
        step(ConnectReply::CloneFailed(io(ErrorKind::OutOfMemory, "no handles"))),
        failed(ErrorKind::OutOfMemory, "no handles")
    );
    let negotiation = "all";
    assert_eq!(
        step(ConnectReply::Cloned { reader: "r", writer: "w", negotiation }),
        ConnectStep::Done(SshSupervisorEvent::Connected {
            endpoint_id: endpoint(),
            generation: 7,
            reader: "r",
            writer: "w",
            negotiation,
        })
    );
}

#[test]
fn every_handshake_failure_has_its_kind_and_text() {
    let broken = || io(ErrorKind::ConnectionReset, "reset by peer");
    assert_eq!(handshake_error(ClientError::ConnectionFailed(broken())), broken());
    assert_eq!(handshake_error(ClientError::ConnectionLost(broken())), broken());
    assert_eq!(
        handshake_error(ClientError::Protocol(FramingError::Io {
            error: broken(),
            text: "I/O error: reset by peer".into(),
        })),
        broken()
    );
    assert_eq!(
        handshake_error(ClientError::Protocol(FramingError::Malformed { text: "bad tag".into() })),
        io(ErrorKind::InvalidData, "bad tag")
    );
    assert_eq!(
        handshake_error(ClientError::Protocol(FramingError::UnexpectedEof {
            text: "closed".into(),
        })),
        io(ErrorKind::InvalidData, "closed")
    );
    assert_eq!(
        handshake_error(ClientError::ServerShutdown { reason: Some("upgrade".into()) }),
        io(ErrorKind::ConnectionAborted, "upgrade")
    );
    assert_eq!(
        handshake_error(ClientError::ServerShutdown { reason: None }),
        io(ErrorKind::ConnectionAborted, "remote server shut down during handshake")
    );
}

#[test]
fn an_io_failure_keeps_its_kind() {
    for kind in [
        ErrorKind::ArgumentListTooLong,
        ErrorKind::ExecutableFileBusy,
        ErrorKind::NotADirectory,
        ErrorKind::IsADirectory,
        ErrorKind::ReadOnlyFilesystem,
        ErrorKind::FileTooLarge,
        ErrorKind::NotSeekable,
        ErrorKind::Deadlock,
        ErrorKind::Uncategorized,
    ] {
        assert_eq!(handshake_error(ClientError::ConnectionLost(io(kind, "lost"))).kind(), kind);
        assert_eq!(step(ConnectReply::CloneFailed(io(kind, "lost"))), failed(kind, "lost"));
    }
}

fn task() -> SshConnectTask<(u16, u16)> {
    SshConnectTask {
        endpoint_id: endpoint(),
        generation: 7,
        profile: profile(),
        options: options(),
    }
}

fn status(status: ClientEndpointStatus, message: &str) -> Event {
    SshSupervisorEvent::Status {
        endpoint_id: endpoint(),
        generation: 7,
        status,
        message: message.into(),
    }
}

#[test]
fn a_task_connects_unless_the_client_shuts_down() {
    let running: TaskStep<(), (), ()> = task().step(TaskReply::Running { shutdown: false });
    assert_eq!(running, TaskStep::Connect);
    let stopped: TaskStep<(), (), ()> = task().step(TaskReply::Running { shutdown: true });
    assert_eq!(stopped, TaskStep::Stop);
}

#[test]
fn a_failed_attempt_asks_for_attention_or_a_retry() {
    let reply = |needs_attention| TaskReply::Failed {
        endpoint_id: endpoint(),
        error: io(ErrorKind::Unsupported, "too old"),
        needs_attention,
    };
    assert_eq!(
        task().step(reply(true)),
        TaskStep::Report(status(ClientEndpointStatus::Attention, "too old"))
    );
    assert_eq!(
        task().step(reply(false)),
        TaskStep::Report(status(ClientEndpointStatus::Reconnecting, "too old"))
    );
}

#[test]
fn a_task_that_breaks_off_is_retried() {
    assert_eq!(
        task().step(TaskReply::Aborted { reason: "task 3 panicked".into() }),
        TaskStep::Report(status(
            ClientEndpointStatus::Reconnecting,
            "SSH connection task stopped unexpectedly: task 3 panicked",
        ))
    );
}

#[test]
fn events_are_sent_only_while_the_client_runs() {
    let event = || status(ClientEndpointStatus::Reconnecting, "timed out");
    assert_eq!(task().step(TaskReply::Connected(event())), TaskStep::Report(event()));
    assert_eq!(
        task().step(TaskReply::Reporting { event: event(), shutdown: false }),
        TaskStep::Send(event())
    );
    assert_eq!(
        task().step(TaskReply::Reporting { event: event(), shutdown: true }),
        TaskStep::Stop
    );
}

#[test]
fn a_refused_server_is_left_alone() {
    let mut supervisors = SshSupervisors::new(&[profile()], 0);
    let task = supervisors.spawn_due(0, options()).pop().unwrap();
    let refusal = ConnectReply::HandshakeFailed(ClientError::HandshakeRejected {
        version: 1,
        error: "surface capability missing".into(),
    });
    let end: Step = connect_once(
        &task.profile,
        task.options,
        task.endpoint_id.clone(),
        task.generation,
        refusal,
    );
    let ConnectStep::Failed { endpoint_id, error } = end else {
        panic!("the attempt goes on");
    };
    let needs_attention = herdr_client::remote::saved_ssh_failure_needs_attention(&error);
    let report: TaskStep<(), (), ()> =
        task.step(TaskReply::Failed { endpoint_id, error, needs_attention });
    let TaskStep::Report(SshSupervisorEvent::Status { endpoint_id, generation, status, message }) =
        report
    else {
        panic!("nothing is reported");
    };
    assert_eq!(status, ClientEndpointStatus::Attention);
    assert_eq!(message, "surface capability missing");
    assert!(supervisors.record_status(&endpoint_id, generation, status, 0));
    assert!(supervisors.spawn_due(1_000_000_000_000, options()).is_empty());
}

/// Runs an attempt against fixed replies, and returns its end and the number of replies it took.
fn run(
    connect: Result<(), IoError>,
    encoding: RenderEncoding,
    health_check: bool,
    clone: Result<(), IoError>,
) -> (Step, usize) {
    let mut reply = ConnectReply::Started;
    let mut replies = 0;
    let mut connect = Some(connect);
    let mut clone = Some(clone);
    loop {
        reply = match step(reply) {
            ConnectStep::Connect { .. } => match connect.take().unwrap() {
                Ok(()) => ConnectReply::Connected,
                Err(error) => ConnectReply::ConnectFailed {
                    error,
                    needs_attention: false,
                    bootstrap_command: String::new(),
                },
            },
            ConnectStep::Handshake(_) => ConnectReply::Handshaken(Handshake {
                encoding,
                endpoint_methods: Some(vec!["interest".into()]),
                endpoint_capabilities: Some(vec!["health".into()]),
            }),
            ConnectStep::Negotiate { methods, capabilities } => {
                assert_eq!(capabilities, vec!["health".to_string()]);
                ConnectReply::Negotiated(EndpointNegotiation {
                    agreed: "all",
                    surface_interest: methods == ["interest"],
                    health_check,
                })
            }
            ConnectStep::CloneReader(negotiation) => match clone.take().unwrap() {
                Ok(()) => ConnectReply::Cloned { reader: "r", writer: "w", negotiation },
                Err(error) => ConnectReply::CloneFailed(error),
            },
            end => return (end, replies),
        };
        replies += 1;
    }
}

#[test]
fn an_attempt_ends_with_the_first_thing_that_goes_wrong() {
    let broken = || Err(io(ErrorKind::ConnectionRefused, "refused"));
    let semantic = RenderEncoding::SemanticFrame;
    assert_eq!(
        run(broken(), RenderEncoding::Other, false, broken()),
        (failed(ErrorKind::ConnectionRefused, "refused"), 1)
    );
    let (end, replies) = run(Ok(()), RenderEncoding::Other, false, broken());
    assert!(matches!(
        end,
        ConnectStep::Failed { error: IoError { kind: ErrorKind::InvalidData, .. }, .. }
    ));
    assert_eq!(replies, 2);
    let (end, replies) = run(Ok(()), semantic, false, broken());
    assert!(matches!(
        end,
        ConnectStep::Failed { error: IoError { kind: ErrorKind::Unsupported, .. }, .. }
    ));
    assert_eq!(replies, 3);
    assert_eq!(
        run(Ok(()), semantic, true, broken()),
        (failed(ErrorKind::ConnectionRefused, "refused"), 4)
    );
    let (end, replies) = run(Ok(()), semantic, true, Ok(()));
    assert!(matches!(
        end,
        ConnectStep::Done(SshSupervisorEvent::Connected { generation: 7, reader: "r", negotiation: "all", .. })
    ));
    assert_eq!(replies, 4);
}

/// Runs a task whose attempt breaks off, and returns its attempts and what it sends.
fn run_task(shutdown: [bool; 2]) -> (usize, Vec<Event>) {
    let mut looks = shutdown.into_iter();
    let mut attempts = 0;
    let mut reply = TaskReply::Running { shutdown: looks.next().unwrap() };
    loop {
        reply = match task().step(reply) {
            TaskStep::Stop => return (attempts, vec![]),
            TaskStep::Connect => {
                attempts += 1;
                TaskReply::Aborted { reason: "cancelled".into() }
            }
            TaskStep::Report(event) => {
                TaskReply::Reporting { event, shutdown: looks.next().unwrap() }
            }
            TaskStep::Send(event) => return (attempts, vec![event]),
        };
    }
}

#[test]
fn a_task_attempts_and_sends_at_most_once() {
    let event = status(
        ClientEndpointStatus::Reconnecting,
        "SSH connection task stopped unexpectedly: cancelled",
    );
    assert_eq!(run_task([false, false]), (1, vec![event]));
    assert_eq!(run_task([false, true]), (1, vec![]));
    assert_eq!(run_task([true, true]), (0, vec![]));
}
