//! Whole runs of the supervisor, and what holds of every one of them.

use crate::arguments::{forwarded, lemma_forwarded_holds_no_flag, NO_FORK_FLAG};
use crate::channel::{Channel, Endpoint, FifoPath, FIFO_MODE};
use crate::message::{ExitStatusMessage, MESSAGE_LEN};
use crate::orchestrator::{initial, next, Action, Config, Event, Setup, State};
use crate::process::ProcessRole;
use crate::relay::{lemma_relay_delivers, ReadOutcome};
use vstd::prelude::*;

verus! {

/// What the machine does over a whole sequence of events: the state it
/// ends in and all requests it made, in their order. `None` where it does
/// not accept one of the events.
pub open spec fn run(config: Config, state: State, events: Seq<Event>) -> Option<
    (State, Seq<Action>),
>
    decreases events.len(),
{
    if events.len() == 0 {
        Some((state, Seq::empty()))
    } else {
        match next(config, state, events.first()) {
            None => None,
            Some((middle, head)) => match run(config, middle, events.drop_first()) {
                None => None,
                Some((last, tail)) => Some((last, head + tail)),
            },
        }
    }
}

/// Whether a request creates a channel, prepares one, or duplicates the
/// process.
pub open spec fn prepares_fork(action: Action) -> bool {
    action is MakeTempDir || action is RemoveStale || action is MakeFifo || action is MakePipe
        || action is Fork
}

/// Whether a request ends the process.
pub open spec fn ends_process(action: Action) -> bool {
    action is ExitImmediately || action is ExitNormally || action is ReportRelayIncomplete
}

/// Whether an event is the answer to a request. Requests that only tell the
/// caller to do something, and those that end the process, have no answer.
pub open spec fn answers(event: Event, action: Action) -> bool {
    match action {
        Action::MakeTempDir => event is DirectoryMade,
        Action::MakeFifo { .. } => event is FifoMade,
        Action::MakePipe => event is PipeMade,
        Action::Fork => event is Forked,
        Action::RunLinker => event is Linked,
        Action::ReadStatus { .. } => event is StatusRead,
        _ => false,
    }
}

/// Whether an event says that the system refused the channel that `state`
/// waits for.
pub open spec fn refuses_channel(state: State, event: Event) -> bool {
    match (state, event) {
        (
            State::NotForked(Setup::AwaitingDirectory),
            Event::DirectoryMade { directory, .. },
        ) => directory is None,
        (State::NotForked(Setup::AwaitingFifo { .. }), Event::FifoMade { status, .. }) => status
            != 0,
        (State::NotForked(Setup::AwaitingPipe), Event::PipeMade { status, .. }) => status != 0,
        _ => false,
    }
}

/// Whether two requests are attempts at the same one-shot operation: making
/// the directory, creating the channel, the fork, the work, the sending, the
/// reading, or the end of the process.
pub open spec fn same_attempt(a: Action, b: Action) -> bool {
    ||| a is MakeTempDir && b is MakeTempDir
    ||| (a is MakeFifo || a is MakePipe) && (b is MakeFifo || b is MakePipe)
    ||| a is Fork && b is Fork
    ||| a is RunLinker && b is RunLinker
    ||| a is SendStatus && b is SendStatus
    ||| a is ReadStatus && b is ReadStatus
    ||| ends_process(a) && ends_process(b)
}

/// A run over a first event and the events after it.
proof fn lemma_run_first(config: Config, state: State, first: Event, rest: Seq<Event>)
    ensures
        run(config, state, seq![first] + rest) == match next(config, state, first) {
            None => None,
            Some((middle, head)) => match run(config, middle, rest) {
                None => None,
                Some((last, tail)) => Some((last, head + tail)),
            },
        },
{
    assert((seq![first] + rest).drop_first() =~= rest);
}

/// A run over two events.
proof fn lemma_run_pair(config: Config, state: State, first: Event, second: Event)
    ensures
        run(config, state, seq![first, second]) == match next(config, state, first) {
            None => None,
            Some((middle, head)) => match next(config, middle, second) {
                None => None,
                Some((last, tail)) => Some((last, head + tail)),
            },
        },
{
    let none = Seq::<Event>::empty();
    assert(seq![first, second] =~= seq![first] + (seq![second] + none));
    lemma_run_first(config, state, first, seq![second] + none);
    match next(config, state, first) {
        Some((middle, _)) => {
            lemma_run_first(config, middle, second, none);
            match next(config, middle, second) {
                Some((_, tail)) => {
                    assert(tail + Seq::<Action>::empty() =~= tail);
                },
                None => {},
            }
        },
        None => {},
    }
}

/// The machine accepts in the beginning the invocation and nothing else.
pub proof fn lemma_run_begins_with_invocation(config: Config, event: Event)
    ensures
        next(config, initial(), event) is Some <==> event is Invoked,
{
}

/// Every step asks one question, and asks it last. Of the requests of a
/// step only the last one has an answer or ends the process; it ends the
/// process exactly when the machine has finished; and the events that the
/// machine accepts next are exactly the answers to it.
pub proof fn lemma_step_asks_last(config: Config, state: State, event: Event, answer: Event)
    requires
        next(config, state, event) is Some,
    ensures
        ({
            let (after, actions) = next(config, state, event).unwrap();
            &&& actions.len() > 0
            &&& forall|i: int, e: Event|
                0 <= i < actions.len() - 1 ==> !ends_process(actions[i]) && !#[trigger] answers(
                    e,
                    actions[i],
                )
            &&& ends_process(actions.last()) <==> after == State::Finished
            &&& next(config, after, answer) is Some <==> answers(answer, actions.last())
        }),
{
}

/// The flag that disables the fork does so, and stays with the supervisor.
/// Where it is among the arguments, no channel is created or prepared and
/// no fork is attempted, however the run goes on: the work starts in the
/// invoking process at once, and nothing but its exit follows. The
/// arguments that are passed on to the work do not hold the flag.
pub proof fn lemma_flag_disables_fork(
    config: Config,
    arguments: Seq<Seq<char>>,
    events: Seq<Event>,
)
    requires
        arguments.contains(NO_FORK_FLAG@),
        events.len() > 0,
        events[0] == (Event::Invoked { skip_fork: arguments.contains(NO_FORK_FLAG@) }),
        run(config, initial(), events) is Some,
    ensures
        !forwarded(arguments).contains(NO_FORK_FLAG@),
        ({
            let (_, actions) = run(config, initial(), events).unwrap();
            &&& forall|i: int| 0 <= i < actions.len() ==> !prepares_fork(#[trigger] actions[i])
            &&& actions[0] == Action::RunLinker
            &&& forall|i: int| 0 < i < actions.len() ==> #[trigger] actions[i] is ExitNormally
        }),
{
    lemma_forwarded_holds_no_flag(arguments);
    reveal_with_fuel(run, 4);
    let rest = events.drop_first();
    if rest.len() > 0 {
        assert(rest.drop_first().len() == 0);
    }
}

/// A refused channel never loses the result of the work: the work runs in
/// the invoking process, and the process exits with the very code that the
/// work gave.
pub proof fn lemma_refused_channel_runs_in_place(
    config: Config,
    state: State,
    refusal: Event,
    code: i32,
)
    requires
        refuses_channel(state, refusal),
    ensures
        run(config, state, seq![refusal, Event::Linked { code }]) == Some(
            (State::Finished, seq![Action::RunLinker, Action::ExitNormally(code)]),
        ),
{
    lemma_run_pair(config, state, refusal, Event::Linked { code });
    let (_, actions) = run(config, state, seq![refusal, Event::Linked { code }]).unwrap();
    assert(actions =~= seq![Action::RunLinker, Action::ExitNormally(code)]);
}

/// A failed fork never loses the result of the work either: the process
/// gives the channel up, runs the work itself, and exits with the code that
/// the work gave, as a run without any fork does.
pub proof fn lemma_failed_fork_runs_in_place(config: Config, channel: Channel, code: i32)
    ensures
        run(
            config,
            State::NotForked(Setup::AwaitingFork { channel }),
            seq![Event::Forked { returned: -1i32 }, Event::Linked { code }],
        ) == Some(
            (
                State::Finished,
                channel.handover(ProcessRole::Failed) + seq![
                    Action::RunLinker,
                    Action::ExitNormally(code),
                ],
            ),
        ),
        run(config, initial(), seq![Event::Invoked { skip_fork: true }, Event::Linked { code }])
            == Some((State::Finished, seq![Action::RunLinker, Action::ExitNormally(code)])),
{
    let waiting = State::NotForked(Setup::AwaitingFork { channel });
    let failed = seq![Event::Forked { returned: -1i32 }, Event::Linked { code }];
    lemma_run_pair(config, waiting, failed[0], failed[1]);
    let (_, actions) = run(config, waiting, failed).unwrap();
    assert(actions =~= channel.handover(ProcessRole::Failed) + seq![
        Action::RunLinker,
        Action::ExitNormally(code),
    ]);
    let disabled = seq![Event::Invoked { skip_fork: true }, Event::Linked { code }];
    lemma_run_pair(config, initial(), disabled[0], disabled[1]);
    let (_, plain) = run(config, initial(), disabled).unwrap();
    assert(plain =~= seq![Action::RunLinker, Action::ExitNormally(code)]);
}

/// The parent never makes up a status. Its step after the read ends with
/// the immediate exit exactly when a whole message arrived, and then with
/// the code of that message; in every other case, an end of the channel
/// before the first octet included, it ends with the error.
pub proof fn lemma_parent_exits_only_on_whole_message(
    config: Config,
    channel: Channel,
    outcome: ReadOutcome,
)
    ensures
        ({
            let (after, actions) = next(
                config,
                State::ParentWait { channel },
                Event::StatusRead(outcome),
            ).unwrap();
            let whole = outcome matches ReadOutcome::Received(octets) && octets@.len()
                == MESSAGE_LEN;
            &&& after == State::Finished
            &&& actions.len() > 0
            &&& whole ==> actions.last() == Action::ExitImmediately(
                ExitStatusMessage::received(outcome->Received_0@).unwrap().code(config.order) as i32,
            )
            &&& !whole ==> actions.last() is ReportRelayIncomplete
            &&& forall|i: int|
                0 <= i < actions.len() && #[trigger] actions[i] is ExitImmediately ==> whole
        }),
{
}

/// What the child sends is what the parent exits with. The child sends the
/// message of the code that the work gave, and where the octets of that
/// message arrive, the parent's last request is the immediate exit with
/// that code.
pub proof fn lemma_status_is_relayed(
    config: Config,
    channel: Channel,
    code: i32,
    arrived: Vec<u8>,
)
    requires
        arrived@ == ExitStatusMessage::of(code, config.order).octets@,
    ensures
        next(config, State::ChildRelay { channel }, Event::Linked { code }) == Some(
            (
                State::Finished,
                seq![
                    Action::SendStatus {
                        message: ExitStatusMessage::of(code, config.order),
                        to: channel.write_end_of(),
                    },
                    Action::ExitNormally(code),
                ],
            ),
        ),
        next(
            config,
            State::ParentWait { channel },
            Event::StatusRead(ReadOutcome::Received(arrived)),
        ) == Some((State::Finished, channel.cleanup().push(Action::ExitImmediately(code)))),
{
    lemma_relay_delivers(code, config.order, arrived);
}

/// A named channel never outlives the run of the process that owns its
/// file. Once the special file exists, every complete run of a process that
/// is not the child removes it, exactly once, after it was made and before
/// the request that ends the process: whether the status arrived, did not
/// arrive, or the fork failed.
pub proof fn lemma_named_channel_is_removed(
    config: Config,
    directory: String,
    dir_error: Option<i32>,
    fifo_error: Option<i32>,
    returned: i32,
    last: Event,
)
    requires
        config.variant is Named,
        returned != 0,
        run(
            config,
            initial(),
            seq![
                Event::Invoked { skip_fork: false },
                Event::DirectoryMade { directory: Some(directory), os_error: dir_error },
                Event::FifoMade { status: 0, os_error: fifo_error },
                Event::Forked { returned },
                last,
            ],
        ) is Some,
    ensures
        ({
            let path = FifoPath { directory, pid: config.pid };
            let (after, actions) = run(
                config,
                initial(),
                seq![
                    Event::Invoked { skip_fork: false },
                    Event::DirectoryMade { directory: Some(directory), os_error: dir_error },
                    Event::FifoMade { status: 0, os_error: fifo_error },
                    Event::Forked { returned },
                    last,
                ],
            ).unwrap();
            &&& after == State::Finished
            &&& actions.len() == 7
            &&& actions[2] == (Action::MakeFifo { path, mode: FIFO_MODE })
            &&& exists|k: int|
                {
                    &&& 2 < k < 6
                    &&& actions[k] == Action::RemoveFifo(path)
                    &&& forall|i: int|
                        0 <= i < 7 && #[trigger] actions[i] is RemoveFifo ==> i == k
                }
            &&& ends_process(actions[6])
        }),
{
    let path = FifoPath { directory, pid: config.pid };
    let channel = Channel::Named { path };
    let e0 = Event::Invoked { skip_fork: false };
    let e1 = Event::DirectoryMade { directory: Some(directory), os_error: dir_error };
    let e2 = Event::FifoMade { status: 0, os_error: fifo_error };
    let e3 = Event::Forked { returned };
    let none = Seq::<Event>::empty();
    let t4 = seq![last] + none;
    let t3 = seq![e3] + t4;
    let t2 = seq![e2] + t3;
    let t1 = seq![e1] + t2;
    let events = seq![e0, e1, e2, e3, last];
    assert(events =~= seq![e0] + t1);
    let s1 = State::NotForked(Setup::AwaitingDirectory);
    let s2 = State::NotForked(Setup::AwaitingFifo { path });
    let s3 = State::NotForked(Setup::AwaitingFork { channel });
    let a1 = seq![Action::MakeTempDir];
    let a2 = seq![Action::RemoveStale(path), Action::MakeFifo { path, mode: FIFO_MODE }];
    let a3 = seq![Action::Fork];
    assert(next(config, initial(), e0) == Some((s1, a1)));
    assert(next(config, s1, e1) == Some((s2, a2)));
    assert(next(config, s2, e2) == Some((s3, a3)));
    lemma_run_first(config, initial(), e0, t1);
    lemma_run_first(config, s1, e1, t2);
    lemma_run_first(config, s2, e2, t3);
    lemma_run_first(config, s3, e3, t4);
    let (s4, a4) = next(config, s3, e3).unwrap();
    lemma_run_first(config, s4, last, none);
    let (s5, a5) = next(config, s4, last).unwrap();
    let (_, actions) = run(config, initial(), events).unwrap();
    assert(actions =~= a1 + a2 + a3 + a4 + a5);
    if ProcessRole::of_fork(returned) is Failed {
        assert(a4 =~= seq![Action::RemoveFifo(path), Action::RunLinker]);
        assert(a5.len() == 1 && a5[0] is ExitNormally);
        assert(actions[4] == Action::RemoveFifo(path));
    } else {
        assert(a4 =~= seq![Action::ReadStatus { from: Endpoint::Fifo(path) }]);
        assert(a5.len() == 2 && a5[0] == Action::RemoveFifo(path) && ends_process(a5[1]));
        assert(actions[5] == Action::RemoveFifo(path));
    }
}

/// The child leaves the special file of a named channel alone: neither on
/// taking up its role nor after the work does it ask for the removal, which
/// is the parent's to make.
pub proof fn lemma_child_never_removes(config: Config, channel: Channel, event: Event)
    ensures
        forall|i: int|
            0 <= i < channel.handover(ProcessRole::Child).len() ==> !(
            #[trigger] channel.handover(ProcessRole::Child)[i] is RemoveFifo),
        next(config, State::ChildRelay { channel }, event) matches Some((_, actions)) ==> forall|
            i: int,
        |
            0 <= i < actions.len() ==> !(#[trigger] actions[i] is RemoveFifo),
{
}

/// How far a state is from the beginning of a run.
spec fn stage(state: State) -> nat {
    match state {
        State::NotForked(Setup::Idle) => 0,
        State::NotForked(Setup::AwaitingDirectory) => 1,
        State::NotForked(Setup::AwaitingFifo { .. }) => 2,
        State::NotForked(Setup::AwaitingPipe) => 2,
        State::NotForked(Setup::AwaitingFork { .. }) => 3,
        State::SynchronousRun(_) => 4,
        State::ChildRelay { .. } => 4,
        State::ParentWait { .. } => 4,
        State::Finished => 5,
    }
}

/// The stage that a state has when an attempt at a one-shot operation is
/// requested on the way into it; 0 for the other requests.
spec fn phase(action: Action) -> nat {
    match action {
        Action::MakeTempDir => 1,
        Action::MakeFifo { .. } => 2,
        Action::MakePipe => 2,
        Action::Fork => 3,
        Action::RunLinker => 4,
        Action::ReadStatus { .. } => 4,
        Action::SendStatus { .. } => 5,
        Action::ExitImmediately(_) => 5,
        Action::ExitNormally(_) => 5,
        Action::ReportRelayIncomplete(_) => 5,
        _ => 0,
    }
}

/// Every step leads to a later stage, attempts in it nothing twice, and
/// attempts only what belongs to the stages it passes.
proof fn lemma_step_advances(config: Config, state: State, event: Event)
    requires
        next(config, state, event) is Some,
    ensures
        ({
            let (middle, head) = next(config, state, event).unwrap();
            &&& stage(state) < stage(middle)
            &&& forall|i: int|
                0 <= i < head.len() && same_attempt(#[trigger] head[i], head[i]) ==> stage(state)
                    < phase(head[i]) <= stage(middle)
            &&& forall|i: int, j: int|
                0 <= i < j < head.len() ==> !same_attempt(#[trigger] head[i], #[trigger] head[j])
        }),
{
}

/// The attempts of a run come in the order of their stages, each once.
proof fn lemma_run_advances(config: Config, state: State, events: Seq<Event>)
    requires
        run(config, state, events) is Some,
    ensures
        ({
            let (_, actions) = run(config, state, events).unwrap();
            &&& forall|i: int|
                0 <= i < actions.len() && same_attempt(#[trigger] actions[i], actions[i])
                    ==> stage(state) < phase(actions[i])
            &&& forall|i: int, j: int|
                0 <= i < j < actions.len() ==> !same_attempt(
                    #[trigger] actions[i],
                    #[trigger] actions[j],
                )
        }),
    decreases events.len(),
{
    if events.len() > 0 {
        let (middle, head) = next(config, state, events.first()).unwrap();
        let (_, tail) = run(config, middle, events.drop_first()).unwrap();
        lemma_step_advances(config, state, events.first());
        lemma_run_advances(config, middle, events.drop_first());
        let actions = head + tail;
        assert forall|i: int, j: int| 0 <= i < j < actions.len() implies !same_attempt(
            #[trigger] actions[i],
            #[trigger] actions[j],
        ) by {
            if i < head.len() <= j && same_attempt(actions[i], actions[j]) {
                assert(same_attempt(head[i], head[i]));
                assert(same_attempt(tail[j - head.len()], tail[j - head.len()]));
                assert(phase(head[i]) == phase(tail[j - head.len()]));
            }
        }
    }
}

/// Nothing is retried. In every run, from whatever state, the directory is
/// asked for at most once, the channel is created at most once, and so are
/// the fork, the work, the sending and the reading of the status attempted;
/// and at most one request ends the process.
pub proof fn lemma_nothing_is_retried(config: Config, state: State, events: Seq<Event>)
    requires
        run(config, state, events) is Some,
    ensures
        ({
            let (_, actions) = run(config, state, events).unwrap();
            forall|i: int, j: int|
                0 <= i < j < actions.len() ==> !same_attempt(
                    #[trigger] actions[i],
                    #[trigger] actions[j],
                )
        }),
{
    lemma_run_advances(config, state, events);
}

} // verus!
