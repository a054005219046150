//! The supervisor as a state machine. It decides; the caller acts. Each
//! step takes what the system answered to the last request and hands back
//! the next requests.

use crate::arguments::{forwarded, parse_arguments, NO_FORK_FLAG};
use crate::channel::{Channel, ChannelError, ChannelVariant, Endpoint, FifoPath, FIFO_MODE};
use crate::message::{ByteOrder, ExitStatusMessage};
use crate::process::ProcessRole;
use crate::relay::{relayed_status, status_from_read, ReadOutcome, RelayError};
use vstd::prelude::*;

verus! {

/// What is fixed for one invocation.
#[derive(Clone, Copy, Debug, PartialEq, Eq)]
pub struct Config {
    /// The kind of channel to create.
    pub variant: ChannelVariant,
    /// The byte order of the relay message.
    pub order: ByteOrder,
    /// The id of the invoking process.
    pub pid: u32,
}

/// Why the work runs in the invoking process itself.
#[derive(Clone, Copy, Debug, PartialEq, Eq)]
pub enum Fallback {
    /// The command line asked for it.
    ForkDisabled,
    /// The system refused to create the channel.
    ChannelCreationFailed(ChannelError),
    /// The system refused to duplicate the process.
    ForkFailed,
}

/// How far the preparations for the fork have come.
#[derive(Clone, Debug, PartialEq, Eq)]
pub enum Setup {
    /// Nothing has been asked for yet.
    Idle,
    /// A temporary directory has been asked for.
    AwaitingDirectory,
    /// The special file at `path` has been asked for.
    AwaitingFifo { path: FifoPath },
    /// A pipe pair has been asked for.
    AwaitingPipe,
    /// The channel exists and the fork has been asked for.
    AwaitingFork { channel: Channel },
}

/// The state of the supervisor.
#[derive(Clone, Debug, PartialEq, Eq)]
pub enum State {
    /// No second process exists yet.
    NotForked(Setup),
    /// The work runs in this process, which will exit with its result.
    SynchronousRun(Fallback),
    /// This process is the child: the work runs here and its result will be
    /// sent to the parent.
    ChildRelay { channel: Channel },
    /// This process is the parent: it waits in its one read for the child's
    /// result.
    ParentWait { channel: Channel },
    /// The last requests have been handed out.
    Finished,
}

/// What the system answered to the request that ended the last step.
#[derive(Clone, Debug, PartialEq, Eq)]
pub enum Event {
    /// The command was invoked, with or without the flag that disables the
    /// fork.
    Invoked { skip_fork: bool },
    /// A request for a temporary directory returned: the directory, or the
    /// system's error code if it could be retrieved.
    DirectoryMade { directory: Option<String>, os_error: Option<i32> },
    /// The call that creates a special file returned `status`.
    FifoMade { status: i32, os_error: Option<i32> },
    /// The call that creates a pipe pair returned `status` and stored the
    /// descriptors in `fds`.
    PipeMade { status: i32, fds: [i32; 2], os_error: Option<i32> },
    /// The fork call returned.
    Forked { returned: i32 },
    /// The work is done, with this exit code.
    Linked { code: i32 },
    /// The parent's read returned.
    StatusRead(ReadOutcome),
}

/// A request to the caller.
#[derive(Clone, Debug, PartialEq, Eq)]
pub enum Action {
    /// Make a fresh temporary directory; answer with [`Event::DirectoryMade`].
    MakeTempDir,
    /// Remove whatever lies at the path, if anything does.
    RemoveStale(FifoPath),
    /// Create a FIFO special file; answer with [`Event::FifoMade`].
    MakeFifo { path: FifoPath, mode: u32 },
    /// Create a pipe pair; answer with [`Event::PipeMade`].
    MakePipe,
    /// Duplicate the process; answer with [`Event::Forked`].
    Fork,
    /// Close a descriptor.
    Close(i32),
    /// Run the work in this process; answer with [`Event::Linked`].
    RunLinker,
    /// Write the whole message to the endpoint, flush, and close the
    /// endpoint.
    SendStatus { message: ExitStatusMessage, to: Endpoint },
    /// Read once, blocking, until [`crate::message::MESSAGE_LEN`] octets have
    /// arrived or the channel has ended; answer with [`Event::StatusRead`].
    ReadStatus { from: Endpoint },
    /// Delete the special file of the channel.
    RemoveFifo(FifoPath),
    /// Terminate this process at once with the code, without waiting for
    /// the child.
    ExitImmediately(i32),
    /// Let this process run through its ordinary exit, with the code.
    ExitNormally(i32),
    /// End with an error that says that the child's exit status could not be
    /// had.
    ReportRelayIncomplete(RelayError),
}

/// The state in which every invocation begins.
pub open spec fn initial() -> State {
    State::NotForked(Setup::Idle)
}

impl Channel {
    /// What a process does to the channel right after the fork call
    /// returned: the parent and the child each give up the end they do not
    /// use, and a process whose fork failed gives up the whole channel.
    pub open spec fn handover(self, role: ProcessRole) -> Seq<Action> {
        match self {
            Channel::Named { path } => match role {
                ProcessRole::Failed => seq![Action::RemoveFifo(path)],
                _ => seq![],
            },
            Channel::Anonymous { read_fd, write_fd } => match role {
                ProcessRole::Child => seq![Action::Close(read_fd)],
                ProcessRole::Parent => seq![Action::Close(write_fd)],
                ProcessRole::Failed => seq![Action::Close(read_fd), Action::Close(write_fd)],
            },
        }
    }

    /// What the parent does to the channel once its read has returned.
    pub open spec fn cleanup(self) -> Seq<Action> {
        match self {
            Channel::Named { path } => seq![Action::RemoveFifo(path)],
            Channel::Anonymous { .. } => seq![],
        }
    }
}

/// The step into the synchronous run: what is left of the channel is given
/// up, then the work starts in this process.
pub open spec fn fall_back(cause: Fallback, release: Seq<Action>) -> (State, Seq<Action>) {
    (State::SynchronousRun(cause), release.push(Action::RunLinker))
}

/// The parent's last request: the immediate exit with the child's code, or
/// the error.
pub open spec fn closing_action(status: Result<i32, RelayError>) -> Action {
    match status {
        Ok(code) => Action::ExitImmediately(code),
        Err(error) => Action::ReportRelayIncomplete(error),
    }
}

/// The transition function: the state that follows `state` on `event` and
/// the requests to carry out, in their order. `None` where `event` does not
/// answer the request that `state` waits for.
pub open spec fn next(config: Config, state: State, event: Event) -> Option<(State, Seq<Action>)> {
    match state {
        State::NotForked(Setup::Idle) => match event {
            Event::Invoked { skip_fork } => Some(
                if skip_fork {
                    fall_back(Fallback::ForkDisabled, seq![])
                } else {
                    match config.variant {
                        ChannelVariant::Named => (
                            State::NotForked(Setup::AwaitingDirectory),
                            seq![Action::MakeTempDir],
                        ),
                        ChannelVariant::Anonymous => (
                            State::NotForked(Setup::AwaitingPipe),
                            seq![Action::MakePipe],
                        ),
                    }
                },
            ),
            _ => None,
        },
        State::NotForked(Setup::AwaitingDirectory) => match event {
            Event::DirectoryMade { directory, os_error } => Some(
                match directory {
                    Some(directory) => {
                        let path = FifoPath { directory, pid: config.pid };
                        (
                            State::NotForked(Setup::AwaitingFifo { path }),
                            seq![Action::RemoveStale(path), Action::MakeFifo { path, mode: FIFO_MODE }],
                        )
                    },
                    None => fall_back(
                        Fallback::ChannelCreationFailed(ChannelError::of_os(os_error)),
                        seq![],
                    ),
                },
            ),
            _ => None,
        },
        State::NotForked(Setup::AwaitingFifo { path }) => match event {
            Event::FifoMade { status, os_error } => Some(
                match Channel::of_fifo(status, path, os_error) {
                    Ok(channel) => (
                        State::NotForked(Setup::AwaitingFork { channel }),
                        seq![Action::Fork],
                    ),
                    Err(error) => fall_back(Fallback::ChannelCreationFailed(error), seq![]),
                },
            ),
            _ => None,
        },
        State::NotForked(Setup::AwaitingPipe) => match event {
            Event::PipeMade { status, fds, os_error } => Some(
                match Channel::of_pipe(status, fds, os_error) {
                    Ok(channel) => (
                        State::NotForked(Setup::AwaitingFork { channel }),
                        seq![Action::Fork],
                    ),
                    Err(error) => fall_back(Fallback::ChannelCreationFailed(error), seq![]),
                },
            ),
            _ => None,
        },
        State::NotForked(Setup::AwaitingFork { channel }) => match event {
            Event::Forked { returned } => Some(
                match ProcessRole::of_fork(returned) {
                    ProcessRole::Child => (
                        State::ChildRelay { channel },
                        channel.handover(ProcessRole::Child).push(Action::RunLinker),
                    ),
                    ProcessRole::Parent => (
                        State::ParentWait { channel },
                        channel.handover(ProcessRole::Parent).push(
                            Action::ReadStatus { from: channel.read_end_of() },
                        ),
                    ),
                    ProcessRole::Failed => fall_back(
                        Fallback::ForkFailed,
                        channel.handover(ProcessRole::Failed),
                    ),
                },
            ),
            _ => None,
        },
        State::SynchronousRun(_) => match event {
            Event::Linked { code } => Some((State::Finished, seq![Action::ExitNormally(code)])),
            _ => None,
        },
        State::ChildRelay { channel } => match event {
            Event::Linked { code } => Some(
                (
                    State::Finished,
                    seq![
                        Action::SendStatus {
                            message: ExitStatusMessage::of(code, config.order),
                            to: channel.write_end_of(),
                        },
                        Action::ExitNormally(code),
                    ],
                ),
            ),
            _ => None,
        },
        State::ParentWait { channel } => match event {
            Event::StatusRead(outcome) => Some(
                (
                    State::Finished,
                    channel.cleanup().push(closing_action(relayed_status(outcome, config.order))),
                ),
            ),
            _ => None,
        },
        State::Finished => None,
    }
}

/// A state together with the requests that led to it.
#[derive(Debug, PartialEq, Eq)]
pub struct Step {
    /// The state after the step.
    pub state: State,
    /// The requests to carry out, in this order. Only the last one is
    /// answered with an event.
    pub actions: Vec<Action>,
}

/// The requests of [`Channel::handover`].
fn handover_actions(channel: &Channel, role: ProcessRole) -> (actions: Vec<Action>)
    ensures
        actions@ == channel.handover(role),
{
    let mut actions: Vec<Action> = Vec::new();
    match channel {
        Channel::Named { path } => match role {
            ProcessRole::Failed => {
                actions.push(Action::RemoveFifo(path.duplicate()));
            },
            _ => {},
        },
        Channel::Anonymous { read_fd, write_fd } => match role {
            ProcessRole::Child => {
                actions.push(Action::Close(*read_fd));
            },
            ProcessRole::Parent => {
                actions.push(Action::Close(*write_fd));
            },
            ProcessRole::Failed => {
                actions.push(Action::Close(*read_fd));
                actions.push(Action::Close(*write_fd));
            },
        },
    }
    assert(actions@ =~= channel.handover(role));
    actions
}

/// The requests of [`Channel::cleanup`].
fn cleanup_actions(channel: &Channel) -> (actions: Vec<Action>)
    ensures
        actions@ == channel.cleanup(),
{
    let mut actions: Vec<Action> = Vec::new();
    match channel {
        Channel::Named { path } => {
            actions.push(Action::RemoveFifo(path.duplicate()));
        },
        Channel::Anonymous { .. } => {},
    }
    assert(actions@ =~= channel.cleanup());
    actions
}

/// The step of [`fall_back`].
fn fall_back_step(cause: Fallback, release: Vec<Action>) -> (step: Step)
    ensures
        (step.state, step.actions@) == fall_back(cause, release@),
{
    let mut actions = release;
    actions.push(Action::RunLinker);
    Step { state: State::SynchronousRun(cause), actions }
}

/// A step with a single request.
fn single_step(state: State, action: Action) -> (step: Step)
    ensures
        step.state == state,
        step.actions@ == seq![action],
{
    let mut actions: Vec<Action> = Vec::new();
    actions.push(action);
    assert(actions@ =~= seq![action]);
    Step { state, actions }
}

impl State {
    /// The state in which every invocation begins.
    pub fn start() -> (state: State)
        ensures
            state == initial(),
    {
        State::NotForked(Setup::Idle)
    }

    /// Takes one step: `event` is the answer to the last request of the
    /// step before, or [`Event::Invoked`] in the beginning. The result is
    /// `None` exactly where `event` is no answer to that request, and else
    /// the state and the requests that [`next`] gives.
    pub fn step(self, event: Event, config: &Config) -> (step: Option<Step>)
        ensures
            match step {
                Some(step) => next(*config, self, event) == Some((step.state, step.actions@)),
                None => next(*config, self, event) is None,
            },
    {
        match self {
            State::NotForked(Setup::Idle) => match event {
                Event::Invoked { skip_fork } => {
                    if skip_fork {
                        Some(fall_back_step(Fallback::ForkDisabled, Vec::new()))
                    } else {
                        match config.variant {
                            ChannelVariant::Named => Some(
                                single_step(
                                    State::NotForked(Setup::AwaitingDirectory),
                                    Action::MakeTempDir,
                                ),
                            ),
                            ChannelVariant::Anonymous => Some(
                                single_step(
                                    State::NotForked(Setup::AwaitingPipe),
                                    Action::MakePipe,
                                ),
                            ),
                        }
                    }
                },
                _ => None,
            },
            State::NotForked(Setup::AwaitingDirectory) => match event {
                Event::DirectoryMade { directory, os_error } => match directory {
                    Some(directory) => {
                        let path = FifoPath { directory, pid: config.pid };
                        let mut actions: Vec<Action> = Vec::new();
                        actions.push(Action::RemoveStale(path.duplicate()));
                        actions.push(Action::MakeFifo { path: path.duplicate(), mode: FIFO_MODE });
                        assert(actions@ =~= seq![
                            Action::RemoveStale(path),
                            Action::MakeFifo { path, mode: FIFO_MODE },
                        ]);
                        Some(Step { state: State::NotForked(Setup::AwaitingFifo { path }), actions })
                    },
                    None => Some(
                        fall_back_step(
                            Fallback::ChannelCreationFailed(ChannelError::from_os(os_error)),
                            Vec::new(),
                        ),
                    ),
                },
                _ => None,
            },
            State::NotForked(Setup::AwaitingFifo { path }) => match event {
                Event::FifoMade { status, os_error } => match Channel::from_fifo(
                    status,
                    path,
                    os_error,
                ) {
                    Ok(channel) => Some(
                        single_step(State::NotForked(Setup::AwaitingFork { channel }), Action::Fork),
                    ),
                    Err(error) => Some(
                        fall_back_step(Fallback::ChannelCreationFailed(error), Vec::new()),
                    ),
                },
                _ => None,
            },
            State::NotForked(Setup::AwaitingPipe) => match event {
                Event::PipeMade { status, fds, os_error } => match Channel::from_pipe(
                    status,
                    fds,
                    os_error,
                ) {
                    Ok(channel) => Some(
                        single_step(State::NotForked(Setup::AwaitingFork { channel }), Action::Fork),
                    ),
                    Err(error) => Some(
                        fall_back_step(Fallback::ChannelCreationFailed(error), Vec::new()),
                    ),
                },
                _ => None,
            },
            State::NotForked(Setup::AwaitingFork { channel }) => match event {
                Event::Forked { returned } => {
                    let role = ProcessRole::from_fork(returned);
                    let mut actions = handover_actions(&channel, role);
                    match role {
                        ProcessRole::Child => {
                            actions.push(Action::RunLinker);
                            Some(Step { state: State::ChildRelay { channel }, actions })
                        },
                        ProcessRole::Parent => {
                            actions.push(Action::ReadStatus { from: channel.read_end() });
                            Some(Step { state: State::ParentWait { channel }, actions })
                        },
                        ProcessRole::Failed => Some(fall_back_step(Fallback::ForkFailed, actions)),
                    }
                },
                _ => None,
            },
            State::SynchronousRun(_) => match event {
                Event::Linked { code } => Some(
                    single_step(State::Finished, Action::ExitNormally(code)),
                ),
                _ => None,
            },
            State::ChildRelay { channel } => match event {
                Event::Linked { code } => {
                    let message = ExitStatusMessage::encode(code, config.order);
                    let to = channel.write_end();
                    let mut actions: Vec<Action> = Vec::new();
                    actions.push(Action::SendStatus { message, to });
                    actions.push(Action::ExitNormally(code));
                    assert(actions@ =~= seq![
                        Action::SendStatus { message, to },
                        Action::ExitNormally(code),
                    ]);
                    Some(Step { state: State::Finished, actions })
                },
                _ => None,
            },
            State::ParentWait { channel } => match event {
                Event::StatusRead(outcome) => {
                    let mut actions = cleanup_actions(&channel);
                    match status_from_read(&outcome, config.order) {
                        Ok(code) => {
                            actions.push(Action::ExitImmediately(code));
                        },
                        Err(error) => {
                            actions.push(Action::ReportRelayIncomplete(error));
                        },
                    }
                    Some(Step { state: State::Finished, actions })
                },
                _ => None,
            },
            State::Finished => None,
        }
    }
}

/// Begins a run on the arguments that follow the program's name: takes the
/// flag that disables the fork out of them, and takes the first step as the
/// flag demands. The result holds the arguments for the work and that step.
pub fn invoke(arguments: &Vec<String>, config: &Config) -> (begun: (Vec<String>, Step))
    ensures
        begun.0.deep_view() == forwarded(arguments.deep_view()),
        next(
            *config,
            initial(),
            Event::Invoked { skip_fork: arguments.deep_view().contains(NO_FORK_FLAG@) },
        ) == Some((begun.1.state, begun.1.actions@)),
{
    let invocation = parse_arguments(arguments);
    let event = Event::Invoked { skip_fork: invocation.skip_fork };
    match State::start().step(event, config) {
        Some(step) => (invocation.forwarded, step),
        None => vstd::pervasive::unreached(),
    }
}

} // verus!
