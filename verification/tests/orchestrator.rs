use fork_supervisor::channel::{Channel, ChannelError, ChannelVariant, Endpoint, FifoPath, FIFO_MODE};
use fork_supervisor::message::{ByteOrder, ExitStatusMessage};
use fork_supervisor::orchestrator::{
    invoke, Action, Config, Event, Fallback, Setup, State, Step,
};
use fork_supervisor::relay::{ReadOutcome, RelayError};

fn anonymous() -> Config {
    Config { variant: ChannelVariant::Anonymous, order: ByteOrder::LittleEndian, pid: 4711 }
}

fn named() -> Config {
    Config { variant: ChannelVariant::Named, order: ByteOrder::LittleEndian, pid: 4711 }
}

fn fifo() -> FifoPath {
    FifoPath { directory: "/tmp/relay.k3".to_string(), pid: 4711 }
}

fn pipe() -> Channel {
    Channel::Anonymous { read_fd: 3, write_fd: 4 }
}

fn directory_made() -> Event {
    Event::DirectoryMade { directory: Some("/tmp/relay.k3".to_string()), os_error: None }
}

fn pipe_made() -> Event {
    Event::PipeMade { status: 0, fds: [3, 4], os_error: None }
}

fn every_event() -> Vec<Event> {
    vec![
        Event::Invoked { skip_fork: false },
        Event::Invoked { skip_fork: true },
        directory_made(),
        Event::DirectoryMade { directory: None, os_error: Some(13) },
        Event::FifoMade { status: 0, os_error: None },
        Event::FifoMade { status: -1, os_error: Some(17) },
        pipe_made(),
        Event::PipeMade { status: -1, fds: [0, 0], os_error: Some(24) },
        Event::Forked { returned: 0 },
        Event::Forked { returned: -1 },
        Event::Forked { returned: 99 },
        Event::Linked { code: 0 },
        Event::Linked { code: 1 },
        Event::StatusRead(ReadOutcome::Received(vec![0, 0, 0, 0])),
        Event::StatusRead(ReadOutcome::Received(Vec::new())),
        Event::StatusRead(ReadOutcome::Failed),
    ]
}

/// Feeds the events to the machine one after the other and gathers the
/// requests. `None` as soon as the machine rejects an event.
fn drive(config: &Config, events: Vec<Event>) -> Option<(State, Vec<Action>)> {
    let mut state = State::start();
    let mut requested = Vec::new();
    for event in events {
        let Step { state: after, actions } = state.step(event, config)?;
        state = after;
        requested.extend(actions);
    }
    Some((state, requested))
}

fn accepted(state: &State, config: &Config) -> Vec<Event> {
    every_event()
        .into_iter()
        .filter(|event| state.clone().step(event.clone(), config).is_some())
        .collect()
}

#[test]
fn starts_not_forked_and_idle() {
    assert_eq!(State::start(), State::NotForked(Setup::Idle));
}

#[test]
fn skip_fork_runs_the_work_at_once() {
    for config in [anonymous(), named()] {
        let step = State::start().step(Event::Invoked { skip_fork: true }, &config).unwrap();
        assert_eq!(step.state, State::SynchronousRun(Fallback::ForkDisabled));
        assert_eq!(step.actions, vec![Action::RunLinker]);
    }
}

#[test]
fn skip_fork_never_creates_a_channel_or_forks() {
    for config in [anonymous(), named()] {
        for code in [0, 1, 137, -1] {
            let (state, requested) = drive(
                &config,
                vec![Event::Invoked { skip_fork: true }, Event::Linked { code }],
            )
            .unwrap();
            assert_eq!(state, State::Finished);
            assert_eq!(requested, vec![Action::RunLinker, Action::ExitNormally(code)]);
        }
    }
}

#[test]
fn skip_fork_accepts_nothing_but_the_end_of_the_work() {
    let state = State::SynchronousRun(Fallback::ForkDisabled);
    assert_eq!(
        accepted(&state, &anonymous()),
        vec![Event::Linked { code: 0 }, Event::Linked { code: 1 }]
    );
}

#[test]
fn anonymous_variant_asks_for_a_pipe() {
    let step = State::start().step(Event::Invoked { skip_fork: false }, &anonymous()).unwrap();
    assert_eq!(step.state, State::NotForked(Setup::AwaitingPipe));
    assert_eq!(step.actions, vec![Action::MakePipe]);
}

#[test]
fn named_variant_asks_for_a_directory() {
    let step = State::start().step(Event::Invoked { skip_fork: false }, &named()).unwrap();
    assert_eq!(step.state, State::NotForked(Setup::AwaitingDirectory));
    assert_eq!(step.actions, vec![Action::MakeTempDir]);
}

#[test]
fn named_variant_clears_the_path_and_makes_the_fifo() {
    let step = State::NotForked(Setup::AwaitingDirectory).step(directory_made(), &named()).unwrap();
    assert_eq!(step.state, State::NotForked(Setup::AwaitingFifo { path: fifo() }));
    assert_eq!(
        step.actions,
        vec![Action::RemoveStale(fifo()), Action::MakeFifo { path: fifo(), mode: 0o660 }]
    );
    assert_eq!(FIFO_MODE, 0o660);
}

#[test]
fn the_fifo_is_named_by_the_configured_process_id() {
    let config = Config { variant: ChannelVariant::Named, order: ByteOrder::BigEndian, pid: 12 };
    let step = State::NotForked(Setup::AwaitingDirectory).step(directory_made(), &config).unwrap();
    let expected = FifoPath { directory: "/tmp/relay.k3".to_string(), pid: 12 };
    assert_eq!(step.state, State::NotForked(Setup::AwaitingFifo { path: expected.clone() }));
    assert_eq!(expected.render(), "/tmp/relay.k3/12");
}

#[test]
fn a_created_channel_leads_to_the_fork() {
    let step = State::NotForked(Setup::AwaitingPipe).step(pipe_made(), &anonymous()).unwrap();
    assert_eq!(step.state, State::NotForked(Setup::AwaitingFork { channel: pipe() }));
    assert_eq!(step.actions, vec![Action::Fork]);
    let step = State::NotForked(Setup::AwaitingFifo { path: fifo() })
        .step(Event::FifoMade { status: 0, os_error: None }, &named())
        .unwrap();
    assert_eq!(
        step.state,
        State::NotForked(Setup::AwaitingFork { channel: Channel::Named { path: fifo() } })
    );
    assert_eq!(step.actions, vec![Action::Fork]);
}

#[test]
fn pipe_refusal_falls_back_to_the_synchronous_run() {
    let (state, requested) = drive(
        &anonymous(),
        vec![
            Event::Invoked { skip_fork: false },
            Event::PipeMade { status: -1, fds: [0, 0], os_error: Some(24) },
        ],
    )
    .unwrap();
    assert_eq!(
        state,
        State::SynchronousRun(Fallback::ChannelCreationFailed(ChannelError { code: 24 }))
    );
    assert_eq!(requested, vec![Action::MakePipe, Action::RunLinker]);
}

#[test]
fn pipe_refusal_without_error_code_is_unknown() {
    let step = State::NotForked(Setup::AwaitingPipe)
        .step(Event::PipeMade { status: -1, fds: [0, 0], os_error: None }, &anonymous())
        .unwrap();
    assert_eq!(
        step.state,
        State::SynchronousRun(Fallback::ChannelCreationFailed(ChannelError { code: -1 }))
    );
}

#[test]
fn channel_refusal_keeps_the_result_of_the_work() {
    for code in [0, 1, 137, -5] {
        let (state, requested) = drive(
            &anonymous(),
            vec![
                Event::Invoked { skip_fork: false },
                Event::PipeMade { status: -1, fds: [0, 0], os_error: Some(24) },
                Event::Linked { code },
            ],
        )
        .unwrap();
        assert_eq!(state, State::Finished);
        assert_eq!(
            requested,
            vec![Action::MakePipe, Action::RunLinker, Action::ExitNormally(code)]
        );
    }
}

#[test]
fn directory_refusal_falls_back() {
    let (state, requested) = drive(
        &named(),
        vec![
            Event::Invoked { skip_fork: false },
            Event::DirectoryMade { directory: None, os_error: Some(13) },
            Event::Linked { code: 3 },
        ],
    )
    .unwrap();
    assert_eq!(state, State::Finished);
    assert_eq!(requested, vec![Action::MakeTempDir, Action::RunLinker, Action::ExitNormally(3)]);
    let step = State::NotForked(Setup::AwaitingDirectory)
        .step(Event::DirectoryMade { directory: None, os_error: Some(13) }, &named())
        .unwrap();
    assert_eq!(
        step.state,
        State::SynchronousRun(Fallback::ChannelCreationFailed(ChannelError { code: 13 }))
    );
}

#[test]
fn fifo_refusal_falls_back() {
    let (state, requested) = drive(
        &named(),
        vec![
            Event::Invoked { skip_fork: false },
            directory_made(),
            Event::FifoMade { status: -1, os_error: Some(17) },
            Event::Linked { code: 9 },
        ],
    )
    .unwrap();
    assert_eq!(state, State::Finished);
    assert_eq!(
        requested,
        vec![
            Action::MakeTempDir,
            Action::RemoveStale(fifo()),
            Action::MakeFifo { path: fifo(), mode: 0o660 },
            Action::RunLinker,
            Action::ExitNormally(9),
        ]
    );
    let step = State::NotForked(Setup::AwaitingFifo { path: fifo() })
        .step(Event::FifoMade { status: -1, os_error: Some(17) }, &named())
        .unwrap();
    assert_eq!(
        step.state,
        State::SynchronousRun(Fallback::ChannelCreationFailed(ChannelError { code: 17 }))
    );
}

#[test]
fn fork_failure_runs_the_work_in_place() {
    for code in [0, 2, 137] {
        let (state, requested) = drive(
            &anonymous(),
            vec![
                Event::Invoked { skip_fork: false },
                pipe_made(),
                Event::Forked { returned: -1 },
                Event::Linked { code },
            ],
        )
        .unwrap();
        assert_eq!(state, State::Finished);
        assert_eq!(
            requested,
            vec![
                Action::MakePipe,
                Action::Fork,
                Action::Close(3),
                Action::Close(4),
                Action::RunLinker,
                Action::ExitNormally(code),
            ]
        );
    }
}

#[test]
fn fork_failure_yields_the_code_of_a_plain_run() {
    for code in [0, 2, 137, -1] {
        let (_, failed) = drive(
            &anonymous(),
            vec![
                Event::Invoked { skip_fork: false },
                pipe_made(),
                Event::Forked { returned: -1 },
                Event::Linked { code },
            ],
        )
        .unwrap();
        let (_, plain) =
            drive(&anonymous(), vec![Event::Invoked { skip_fork: true }, Event::Linked { code }])
                .unwrap();
        assert_eq!(failed.last(), plain.last());
        assert_eq!(failed.last(), Some(&Action::ExitNormally(code)));
    }
}

#[test]
fn fork_failure_is_recorded_as_the_cause() {
    let step = State::NotForked(Setup::AwaitingFork { channel: pipe() })
        .step(Event::Forked { returned: -1 }, &anonymous())
        .unwrap();
    assert_eq!(step.state, State::SynchronousRun(Fallback::ForkFailed));
}

#[test]
fn fork_failure_removes_the_fifo() {
    let (state, requested) = drive(
        &named(),
        vec![
            Event::Invoked { skip_fork: false },
            directory_made(),
            Event::FifoMade { status: 0, os_error: None },
            Event::Forked { returned: -1 },
            Event::Linked { code: 5 },
        ],
    )
    .unwrap();
    assert_eq!(state, State::Finished);
    assert_eq!(
        requested,
        vec![
            Action::MakeTempDir,
            Action::RemoveStale(fifo()),
            Action::MakeFifo { path: fifo(), mode: 0o660 },
            Action::Fork,
            Action::RemoveFifo(fifo()),
            Action::RunLinker,
            Action::ExitNormally(5),
        ]
    );
}

#[test]
fn child_closes_the_read_end_and_works() {
    let step = State::NotForked(Setup::AwaitingFork { channel: pipe() })
        .step(Event::Forked { returned: 0 }, &anonymous())
        .unwrap();
    assert_eq!(step.state, State::ChildRelay { channel: pipe() });
    assert_eq!(step.actions, vec![Action::Close(3), Action::RunLinker]);
}

#[test]
fn child_of_a_named_channel_works_at_once() {
    let channel = Channel::Named { path: fifo() };
    let step = State::NotForked(Setup::AwaitingFork { channel: channel.clone() })
        .step(Event::Forked { returned: 0 }, &named())
        .unwrap();
    assert_eq!(step.state, State::ChildRelay { channel });
    assert_eq!(step.actions, vec![Action::RunLinker]);
}

#[test]
fn child_sends_137_as_89_00_00_00() {
    let step = State::ChildRelay { channel: pipe() }
        .step(Event::Linked { code: 137 }, &anonymous())
        .unwrap();
    assert_eq!(step.state, State::Finished);
    assert_eq!(
        step.actions,
        vec![
            Action::SendStatus {
                message: ExitStatusMessage { octets: [0x89, 0x00, 0x00, 0x00] },
                to: Endpoint::Descriptor(4),
            },
            Action::ExitNormally(137),
        ]
    );
}

#[test]
fn child_sends_in_the_configured_order() {
    let config = Config { variant: ChannelVariant::Anonymous, order: ByteOrder::BigEndian, pid: 1 };
    let step =
        State::ChildRelay { channel: pipe() }.step(Event::Linked { code: 137 }, &config).unwrap();
    assert_eq!(
        step.actions[0],
        Action::SendStatus {
            message: ExitStatusMessage { octets: [0x00, 0x00, 0x00, 0x89] },
            to: Endpoint::Descriptor(4),
        }
    );
}

#[test]
fn child_of_a_named_channel_sends_to_the_fifo_and_leaves_it() {
    let step = State::ChildRelay { channel: Channel::Named { path: fifo() } }
        .step(Event::Linked { code: 0 }, &named())
        .unwrap();
    assert_eq!(
        step.actions,
        vec![
            Action::SendStatus {
                message: ExitStatusMessage { octets: [0; 4] },
                to: Endpoint::Fifo(fifo()),
            },
            Action::ExitNormally(0),
        ]
    );
    assert!(!step.actions.iter().any(|action| matches!(action, Action::RemoveFifo(_))));
}

#[test]
fn parent_closes_the_write_end_and_reads() {
    let step = State::NotForked(Setup::AwaitingFork { channel: pipe() })
        .step(Event::Forked { returned: 4242 }, &anonymous())
        .unwrap();
    assert_eq!(step.state, State::ParentWait { channel: pipe() });
    assert_eq!(
        step.actions,
        vec![Action::Close(4), Action::ReadStatus { from: Endpoint::Descriptor(3) }]
    );
}

#[test]
fn parent_of_a_named_channel_reads_from_the_fifo() {
    let channel = Channel::Named { path: fifo() };
    let step = State::NotForked(Setup::AwaitingFork { channel: channel.clone() })
        .step(Event::Forked { returned: 4242 }, &named())
        .unwrap();
    assert_eq!(step.state, State::ParentWait { channel });
    assert_eq!(step.actions, vec![Action::ReadStatus { from: Endpoint::Fifo(fifo()) }]);
}

#[test]
fn parent_exits_at_once_with_the_relayed_code() {
    let step = State::ParentWait { channel: pipe() }
        .step(Event::StatusRead(ReadOutcome::Received(vec![0x89, 0, 0, 0])), &anonymous())
        .unwrap();
    assert_eq!(step.state, State::Finished);
    assert_eq!(step.actions, vec![Action::ExitImmediately(137)]);
}

#[test]
fn parent_fails_when_the_child_wrote_nothing() {
    let step = State::ParentWait { channel: pipe() }
        .step(Event::StatusRead(ReadOutcome::Received(Vec::new())), &anonymous())
        .unwrap();
    assert_eq!(step.state, State::Finished);
    assert_eq!(
        step.actions,
        vec![Action::ReportRelayIncomplete(RelayError::ChildDiedUnexpectedly)]
    );
}

#[test]
fn parent_fails_on_a_partial_message() {
    for length in 1..4usize {
        let step = State::ParentWait { channel: pipe() }
            .step(Event::StatusRead(ReadOutcome::Received(vec![0; length])), &anonymous())
            .unwrap();
        assert_eq!(
            step.actions,
            vec![Action::ReportRelayIncomplete(RelayError::ChildDiedUnexpectedly)]
        );
    }
}

#[test]
fn parent_fails_on_a_failed_read() {
    let step = State::ParentWait { channel: pipe() }
        .step(Event::StatusRead(ReadOutcome::Failed), &anonymous())
        .unwrap();
    assert_eq!(step.actions, vec![Action::ReportRelayIncomplete(RelayError::IoFailure)]);
}

#[test]
fn parent_removes_the_fifo_before_it_exits() {
    let step = State::ParentWait { channel: Channel::Named { path: fifo() } }
        .step(Event::StatusRead(ReadOutcome::Received(vec![7, 0, 0, 0])), &named())
        .unwrap();
    assert_eq!(step.actions, vec![Action::RemoveFifo(fifo()), Action::ExitImmediately(7)]);
}

#[test]
fn parent_removes_the_fifo_before_it_fails() {
    for outcome in [
        ReadOutcome::Received(Vec::new()),
        ReadOutcome::Received(vec![1, 2, 3]),
        ReadOutcome::Failed,
    ] {
        let step = State::ParentWait { channel: Channel::Named { path: fifo() } }
            .step(Event::StatusRead(outcome), &named())
            .unwrap();
        assert_eq!(step.actions.len(), 2);
        assert_eq!(step.actions[0], Action::RemoveFifo(fifo()));
        assert!(matches!(step.actions[1], Action::ReportRelayIncomplete(_)));
    }
}

#[test]
fn whole_run_of_child_and_parent() {
    let started = vec![Event::Invoked { skip_fork: false }, pipe_made()];
    let mut child_events = started.clone();
    child_events.push(Event::Forked { returned: 0 });
    child_events.push(Event::Linked { code: 137 });
    let (child_state, child_requests) = drive(&anonymous(), child_events).unwrap();
    assert_eq!(child_state, State::Finished);
    let sent = match &child_requests[4] {
        Action::SendStatus { message, to } => {
            assert_eq!(to, &Endpoint::Descriptor(4));
            message.octets
        }
        other => panic!("the child requested {:?}", other),
    };
    assert_eq!(sent, [0x89, 0x00, 0x00, 0x00]);

    let mut parent_events = started;
    parent_events.push(Event::Forked { returned: 31337 });
    parent_events.push(Event::StatusRead(ReadOutcome::Received(sent.to_vec())));
    let (parent_state, parent_requests) = drive(&anonymous(), parent_events).unwrap();
    assert_eq!(parent_state, State::Finished);
    assert_eq!(
        parent_requests,
        vec![
            Action::MakePipe,
            Action::Fork,
            Action::Close(4),
            Action::ReadStatus { from: Endpoint::Descriptor(3) },
            Action::ExitImmediately(137),
        ]
    );
}

#[test]
fn whole_run_relays_every_code_in_both_orders() {
    for order in [ByteOrder::LittleEndian, ByteOrder::BigEndian, ByteOrder::native()] {
        let config = Config { variant: ChannelVariant::Anonymous, order, pid: 1 };
        for code in [0, 1, -1, 137, 255, 256, i32::MIN, i32::MAX] {
            let child = State::ChildRelay { channel: pipe() }
                .step(Event::Linked { code }, &config)
                .unwrap();
            let sent = match &child.actions[0] {
                Action::SendStatus { message, .. } => message.octets.to_vec(),
                other => panic!("the child requested {:?}", other),
            };
            let parent = State::ParentWait { channel: pipe() }
                .step(Event::StatusRead(ReadOutcome::Received(sent)), &config)
                .unwrap();
            assert_eq!(parent.actions, vec![Action::ExitImmediately(code)]);
        }
    }
}

#[test]
fn whole_run_with_a_named_channel() {
    let (state, requested) = drive(
        &named(),
        vec![
            Event::Invoked { skip_fork: false },
            directory_made(),
            Event::FifoMade { status: 0, os_error: None },
            Event::Forked { returned: 600 },
            Event::StatusRead(ReadOutcome::Received(vec![1, 0, 0, 0])),
        ],
    )
    .unwrap();
    assert_eq!(state, State::Finished);
    assert_eq!(
        requested,
        vec![
            Action::MakeTempDir,
            Action::RemoveStale(fifo()),
            Action::MakeFifo { path: fifo(), mode: 0o660 },
            Action::Fork,
            Action::ReadStatus { from: Endpoint::Fifo(fifo()) },
            Action::RemoveFifo(fifo()),
            Action::ExitImmediately(1),
        ]
    );
    let removals =
        requested.iter().filter(|action| matches!(action, Action::RemoveFifo(_))).count();
    assert_eq!(removals, 1);
}

#[test]
fn each_state_accepts_only_its_answer() {
    let config = anonymous();
    assert_eq!(
        accepted(&State::start(), &config),
        vec![Event::Invoked { skip_fork: false }, Event::Invoked { skip_fork: true }]
    );
    assert_eq!(
        accepted(&State::NotForked(Setup::AwaitingDirectory), &config),
        vec![directory_made(), Event::DirectoryMade { directory: None, os_error: Some(13) }]
    );
    assert_eq!(
        accepted(&State::NotForked(Setup::AwaitingFifo { path: fifo() }), &config),
        vec![
            Event::FifoMade { status: 0, os_error: None },
            Event::FifoMade { status: -1, os_error: Some(17) },
        ]
    );
    assert_eq!(
        accepted(&State::NotForked(Setup::AwaitingPipe), &config),
        vec![pipe_made(), Event::PipeMade { status: -1, fds: [0, 0], os_error: Some(24) }]
    );
    assert_eq!(
        accepted(&State::NotForked(Setup::AwaitingFork { channel: pipe() }), &config),
        vec![
            Event::Forked { returned: 0 },
            Event::Forked { returned: -1 },
            Event::Forked { returned: 99 },
        ]
    );
    assert_eq!(
        accepted(&State::ChildRelay { channel: pipe() }, &config),
        vec![Event::Linked { code: 0 }, Event::Linked { code: 1 }]
    );
    assert_eq!(
        accepted(&State::ParentWait { channel: pipe() }, &config),
        vec![
            Event::StatusRead(ReadOutcome::Received(vec![0, 0, 0, 0])),
            Event::StatusRead(ReadOutcome::Received(Vec::new())),
            Event::StatusRead(ReadOutcome::Failed),
        ]
    );
}

#[test]
fn finished_accepts_nothing() {
    for config in [anonymous(), named()] {
        assert!(accepted(&State::Finished, &config).is_empty());
    }
}

#[test]
fn nothing_is_requested_twice() {
    let runs = vec![
        (anonymous(), vec![Event::Invoked { skip_fork: true }, Event::Linked { code: 0 }]),
        (
            anonymous(),
            vec![
                Event::Invoked { skip_fork: false },
                pipe_made(),
                Event::Forked { returned: 0 },
                Event::Linked { code: 0 },
            ],
        ),
        (
            anonymous(),
            vec![
                Event::Invoked { skip_fork: false },
                pipe_made(),
                Event::Forked { returned: 5 },
                Event::StatusRead(ReadOutcome::Failed),
            ],
        ),
        (
            named(),
            vec![
                Event::Invoked { skip_fork: false },
                directory_made(),
                Event::FifoMade { status: 0, os_error: None },
                Event::Forked { returned: -1 },
                Event::Linked { code: 0 },
            ],
        ),
    ];
    for (config, events) in runs {
        let (_, requested) = drive(&config, events).unwrap();
        for kind in 0..6 {
            let count = requested
                .iter()
                .filter(|action| match kind {
                    0 => matches!(action, Action::MakePipe | Action::MakeFifo { .. }),
                    1 => matches!(action, Action::Fork),
                    2 => matches!(action, Action::RunLinker),
                    3 => matches!(action, Action::SendStatus { .. }),
                    4 => matches!(action, Action::ReadStatus { .. }),
                    _ => matches!(
                        action,
                        Action::ExitImmediately(_)
                            | Action::ExitNormally(_)
                            | Action::ReportRelayIncomplete(_)
                    ),
                })
                .count();
            assert!(count <= 1);
        }
        assert!(matches!(
            requested.last(),
            Some(
                Action::ExitImmediately(_)
                    | Action::ExitNormally(_)
                    | Action::ReportRelayIncomplete(_)
            )
        ));
    }
}

#[test]
fn a_rejected_event_ends_a_run() {
    assert_eq!(
        drive(&anonymous(), vec![Event::Invoked { skip_fork: false }, Event::Linked { code: 0 }]),
        None
    );
    assert_eq!(
        drive(
            &anonymous(),
            vec![
                Event::Invoked { skip_fork: true },
                Event::Linked { code: 0 },
                Event::Linked { code: 0 },
            ]
        ),
        None
    );
}

fn command_line(items: &[&str]) -> Vec<String> {
    items.iter().map(|item| item.to_string()).collect()
}

#[test]
fn invoke_without_the_flag_prepares_the_fork() {
    let (forwarded, step) = invoke(&command_line(&["-o", "out", "a.o"]), &anonymous());
    assert_eq!(forwarded, command_line(&["-o", "out", "a.o"]));
    assert_eq!(step.state, State::NotForked(Setup::AwaitingPipe));
    assert_eq!(step.actions, vec![Action::MakePipe]);
    let (forwarded, step) = invoke(&Vec::new(), &named());
    assert!(forwarded.is_empty());
    assert_eq!(step.state, State::NotForked(Setup::AwaitingDirectory));
    assert_eq!(step.actions, vec![Action::MakeTempDir]);
}

#[test]
fn invoke_with_the_flag_runs_in_place_and_keeps_the_flag() {
    for config in [anonymous(), named()] {
        let (forwarded, step) = invoke(&command_line(&["-o", "out", "--no-fork", "a.o"]), &config);
        assert_eq!(forwarded, command_line(&["-o", "out", "a.o"]));
        assert_eq!(step.state, State::SynchronousRun(Fallback::ForkDisabled));
        assert_eq!(step.actions, vec![Action::RunLinker]);
    }
}

#[test]
fn invoke_takes_the_same_first_step_as_the_machine() {
    for config in [anonymous(), named()] {
        for (arguments, skip_fork) in
            [(command_line(&["a", "b"]), false), (command_line(&["a", "--no-fork"]), true)]
        {
            let (_, step) = invoke(&arguments, &config);
            assert_eq!(Some(step), State::start().step(Event::Invoked { skip_fork }, &config));
        }
    }
}
