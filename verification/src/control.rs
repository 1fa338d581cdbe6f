//! How the render loop and the console listener take turns at the console.
//!
//! The listener reads the console only while a shared gate is open. The loop
//! opens the console gate when it has a city, closes it while it asks for another,
//! and opens it again when the new sample is there. The decisions of both
//! sides are functions from what they see to what they do next; running the
//! loop, reading the console and waiting are left to the caller.

use vstd::prelude::*;
use crate::text::{lowercase_of, same_text, to_lowercase, trim, trimmed_of};

verus! {

/// What the user can ask for while a scene is shown.
#[derive(Clone, Copy, Debug, PartialEq, Eq, Structural)]
pub enum Command {
    SwitchCity,
    Exit,
}

/// The command that a normalised line stands for: `w` switches the city and
/// `x` leaves. Every other line stands for nothing.
pub open spec fn command_of(normalized: Seq<char>) -> Option<Command> {
    if normalized == "w"@ {
        Some(Command::SwitchCity)
    } else if normalized == "x"@ {
        Some(Command::Exit)
    } else {
        None
    }
}

/// A line as it is compared: without the whitespace around it, in lowercase.
pub open spec fn normalized(line: Seq<char>) -> Seq<char> {
    lowercase_of(trimmed_of(line))
}

/// Reads a command from a line that is already normalised.
pub fn command_from_normalized(text: &str) -> (command: Option<Command>)
    ensures
        command == command_of(text@),
{
    if same_text(text, "w") {
        Some(Command::SwitchCity)
    } else if same_text(text, "x") {
        Some(Command::Exit)
    } else {
        None
    }
}

/// Reads a command from a line of console input, whatever its case and the
/// whitespace around it.
pub fn parse_command(line: &str) -> (command: Option<Command>)
    ensures
        command == command_of(normalized(line@)),
{
    let lowered = to_lowercase(trim(line));
    command_from_normalized(lowered.as_str())
}

/// The answer that a normalised line gives to the question whether to begin:
/// `y` is yes and `n` is no. Every other line is no answer.
pub open spec fn confirmation_of(normalized: Seq<char>) -> Option<bool> {
    if normalized == "y"@ {
        Some(true)
    } else if normalized == "n"@ {
        Some(false)
    } else {
        None
    }
}

/// Reads the answer to the question whether to begin from a line that is
/// already normalised.
pub fn confirmation_from_normalized(text: &str) -> (answer: Option<bool>)
    ensures
        answer == confirmation_of(text@),
{
    if same_text(text, "y") {
        Some(true)
    } else if same_text(text, "n") {
        Some(false)
    } else {
        None
    }
}

/// Reads the answer to the question whether to begin from a line of console
/// input. Without an answer the question is to be asked again.
pub fn parse_confirmation(line: &str) -> (answer: Option<bool>)
    ensures
        answer == confirmation_of(normalized(line@)),
{
    let lowered = to_lowercase(trim(line));
    confirmation_from_normalized(lowered.as_str())
}

// ---------------------------------------------------------------------------
// The listener

/// What the listener does in one round.
#[derive(Clone, Copy, Debug, PartialEq, Eq, Structural)]
pub enum ListenerStep {
    /// Leave the console alone in this round.
    Park,
    /// Read one line from the console, and wait for it.
    Read,
}

/// Decides a round of the listener: it reads exactly when the console gate is open.
pub fn listener_step(gate_open: bool) -> (step: ListenerStep)
    ensures
        step == ListenerStep::Read <==> gate_open,
        step == ListenerStep::Park <==> !gate_open,
{
    if gate_open {
        ListenerStep::Read
    } else {
        ListenerStep::Park
    }
}

/// What the listener does with what it has read.
#[derive(Clone, Copy, Debug, PartialEq, Eq, Structural)]
pub struct ListenerVerdict {
    /// The command to put into the queue, if the line was one.
    pub forward: Option<Command>,
    /// Whether the listener ends.
    pub stop: bool,
}

/// The verdict on a read.
pub open spec fn verdict_of(line: Option<Seq<char>>) -> ListenerVerdict {
    match line {
        None => ListenerVerdict { forward: None, stop: true },
        Some(text) => ListenerVerdict {
            forward: command_of(normalized(text)),
            stop: command_of(normalized(text)) == Some(Command::Exit),
        },
    }
}

/// The view of a line that may be missing.
pub open spec fn line_view(line: Option<&str>) -> Option<Seq<char>> {
    match line {
        None => None,
        Some(text) => Some(text@),
    }
}

/// Decides what follows a read. A read that failed, given as `None`, forwards
/// nothing and ends the listener. A line that is a command is forwarded, and
/// the listener ends after it has forwarded `Exit`. Any other line is dropped
/// and the listener goes on.
pub fn listener_verdict(line: Option<&str>) -> (verdict: ListenerVerdict)
    ensures
        verdict == verdict_of(line_view(line)),
{
    match line {
        None => ListenerVerdict { forward: None, stop: true },
        Some(text) => {
            let forward = parse_command(text);
            let stop = match forward {
                Some(Command::Exit) => true,
                _ => false,
            };
            ListenerVerdict { forward, stop }
        },
    }
}

// ---------------------------------------------------------------------------
// The loop

/// Where the loop stands.
#[derive(Clone, Copy, Debug, PartialEq, Eq, Structural)]
pub enum LoopState {
    /// No city yet: the console gate is closed and the listener is parked.
    Idle,
    /// A scene is shown: the console gate is open and the listener reads the console.
    Listening,
    /// Another city is being asked for: the console gate is closed.
    CitySwitchInFlight,
    /// The loop has ended, and the console gate no longer matters.
    Terminated,
}

/// What the loop found when it looked into the queue of commands.
#[derive(Clone, Copy, Debug, PartialEq, Eq, Structural)]
pub enum Polled {
    Command(Command),
    /// Nothing is waiting.
    Empty,
    /// The listener is gone and nothing will ever come.
    Closed,
}

/// What happens to the loop.
#[derive(Clone, Copy, Debug, PartialEq, Eq, Structural)]
pub enum LoopEvent {
    /// The first city was entered and found.
    CityResolved,
    /// A frame began and the queue was looked into, without waiting.
    Polled(Polled),
    /// The sample of the new city is there, fetched or replaced by the sentinel.
    SampleReady,
}

/// What the caller of the loop has to do next.
#[derive(Clone, Copy, Debug, PartialEq, Eq, Structural)]
pub enum LoopAction {
    /// Go on with the frame.
    Continue,
    /// Open the console gate: the listener may read from now on.
    OpenGate,
    /// Close the console gate, give the listener the time to see it, and only then
    /// ask for the new city and its weather.
    CloseGateThenFetch,
    /// Leave the loop. The listener ends by itself once it has forwarded the
    /// command that asked for this.
    Quit,
}

/// A state together with the action that led to it.
#[derive(Clone, Copy, Debug, PartialEq, Eq, Structural)]
pub struct Transition {
    pub state: LoopState,
    pub action: LoopAction,
}

/// Whether the loop holds the console gate open in a state: only while it is
/// listening.
pub open spec fn gate_is_open(state: LoopState) -> bool {
    state == LoopState::Listening
}

/// The transition that an event causes in a state. An event that has no
/// meaning in a state changes nothing.
pub open spec fn next(state: LoopState, event: LoopEvent) -> Transition {
    match (state, event) {
        (LoopState::Idle, LoopEvent::CityResolved) => Transition {
            state: LoopState::Listening,
            action: LoopAction::OpenGate,
        },
        (LoopState::Listening, LoopEvent::Polled(Polled::Command(Command::SwitchCity))) => {
            Transition {
                state: LoopState::CitySwitchInFlight,
                action: LoopAction::CloseGateThenFetch,
            }
        },
        (LoopState::Listening, LoopEvent::Polled(Polled::Command(Command::Exit))) => Transition {
            state: LoopState::Terminated,
            action: LoopAction::Quit,
        },
        (LoopState::CitySwitchInFlight, LoopEvent::SampleReady) => Transition {
            state: LoopState::Listening,
            action: LoopAction::OpenGate,
        },
        _ => Transition { state, action: LoopAction::Continue },
    }
}

/// Whether the loop holds the console gate open in a state.
pub fn gate_open(state: LoopState) -> (open: bool)
    ensures
        open == gate_is_open(state),
{
    match state {
        LoopState::Listening => true,
        _ => false,
    }
}

/// Decides what an event does to the loop. The loop handles one command for
/// each look into the queue; an empty queue and a queue whose listener is
/// gone are the same to it.
pub fn step(state: LoopState, event: LoopEvent) -> (transition: Transition)
    ensures
        transition == next(state, event),
{
    match state {
        LoopState::Idle => match event {
            LoopEvent::CityResolved => Transition {
                state: LoopState::Listening,
                action: LoopAction::OpenGate,
            },
            _ => Transition { state, action: LoopAction::Continue },
        },
        LoopState::Listening => match event {
            LoopEvent::Polled(Polled::Command(Command::SwitchCity)) => Transition {
                state: LoopState::CitySwitchInFlight,
                action: LoopAction::CloseGateThenFetch,
            },
            LoopEvent::Polled(Polled::Command(Command::Exit)) => Transition {
                state: LoopState::Terminated,
                action: LoopAction::Quit,
            },
            _ => Transition { state, action: LoopAction::Continue },
        },
        LoopState::CitySwitchInFlight => match event {
            LoopEvent::SampleReady => Transition {
                state: LoopState::Listening,
                action: LoopAction::OpenGate,
            },
            _ => Transition { state, action: LoopAction::Continue },
        },
        LoopState::Terminated => Transition { state, action: LoopAction::Continue },
    }
}

/// The state that a run of events leads to.
pub open spec fn run(start: LoopState, events: Seq<LoopEvent>) -> LoopState
    decreases events.len(),
{
    if events.len() == 0 {
        start
    } else {
        next(run(start, events.drop_last()), events.last()).state
    }
}

/// The state before event `i` of a run.
pub open spec fn state_before(start: LoopState, events: Seq<LoopEvent>, i: int) -> LoopState {
    run(start, events.take(i))
}

/// Whether event `i` of a run makes the loop ask for a new city.
pub open spec fn fetch_begins_at(start: LoopState, events: Seq<LoopEvent>, i: int) -> bool {
    next(state_before(start, events, i), events[i]).action == LoopAction::CloseGateThenFetch
}

/// Whether none of the events from `from` up to, but without, `to` says that
/// a sample is ready.
pub open spec fn no_sample_between(events: Seq<LoopEvent>, from: int, to: int) -> bool {
    forall|k: int| from <= k < to ==> events[k] != LoopEvent::SampleReady
}

/// A command to switch the city that is seen while the console gate is open closes the
/// gate in the very transition that begins the fetch; and no other
/// transition begins one.
pub proof fn lemma_switch_closes_gate(state: LoopState, event: LoopEvent)
    ensures
        gate_is_open(state) && event == LoopEvent::Polled(Polled::Command(Command::SwitchCity))
            ==> next(state, event).action == LoopAction::CloseGateThenFetch && !gate_is_open(
            next(state, event).state,
        ),
        next(state, event).action == LoopAction::CloseGateThenFetch ==> gate_is_open(state)
            && event == LoopEvent::Polled(Polled::Command(Command::SwitchCity)) && !gate_is_open(
            next(state, event).state,
        ),
{
}

/// Once the sample of the new city is ready, the console gate is open again.
pub proof fn lemma_sample_reopens_gate(state: LoopState)
    requires
        state == LoopState::CitySwitchInFlight,
    ensures
        gate_is_open(next(state, LoopEvent::SampleReady).state),
        next(state, LoopEvent::SampleReady).action == LoopAction::OpenGate,
{
}

/// The console gate changes only with an action that says so: it opens with
/// `OpenGate` and closes with `CloseGateThenFetch`. With `Continue` the state
/// stays as it is, and `Quit` ends a loop that was listening.
pub proof fn lemma_gate_follows_actions(state: LoopState, event: LoopEvent)
    ensures
        match next(state, event).action {
            LoopAction::Continue => next(state, event).state == state,
            LoopAction::OpenGate => !gate_is_open(state) && gate_is_open(next(state, event).state),
            LoopAction::CloseGateThenFetch => gate_is_open(state) && !gate_is_open(
                next(state, event).state,
            ),
            LoopAction::Quit => gate_is_open(state) && next(state, event).state
                == LoopState::Terminated,
        },
{
}

/// A queue that is empty and a queue whose listener is gone are the same to
/// the loop: neither changes anything.
pub proof fn lemma_silence_changes_nothing(state: LoopState)
    ensures
        next(state, LoopEvent::Polled(Polled::Empty)) == (Transition {
            state,
            action: LoopAction::Continue,
        }),
        next(state, LoopEvent::Polled(Polled::Closed)) == (Transition {
            state,
            action: LoopAction::Continue,
        }),
{
}

/// A loop that has ended stays ended, whatever happens.
pub proof fn lemma_terminated_stays(events: Seq<LoopEvent>)
    ensures
        run(LoopState::Terminated, events) == LoopState::Terminated,
    decreases events.len(),
{
    if events.len() > 0 {
        lemma_terminated_stays(events.drop_last());
    }
}

/// In every run of events, from the transition that begins a fetch until the
/// sample is ready, the console gate is closed and no other fetch begins.
pub proof fn lemma_gate_closed_while_in_flight(
    start: LoopState,
    events: Seq<LoopEvent>,
    i: int,
    j: int,
)
    requires
        0 <= i < j <= events.len(),
        fetch_begins_at(start, events, i),
        no_sample_between(events, i + 1, j),
    ensures
        state_before(start, events, j) == LoopState::CitySwitchInFlight,
        !gate_is_open(state_before(start, events, j)),
        j < events.len() ==> !fetch_begins_at(start, events, j),
    decreases j - i,
{
    assert(events.take(j).drop_last() =~= events.take(j - 1));
    assert(events.take(j).last() == events[j - 1]);
    if j > i + 1 {
        lemma_gate_closed_while_in_flight(start, events, i, j - 1);
    }
}

/// In every run of events, the first time that a sample is ready after a
/// fetch began, the console gate opens again.
pub proof fn lemma_gate_reopens_after_fetch(
    start: LoopState,
    events: Seq<LoopEvent>,
    i: int,
    j: int,
)
    requires
        0 <= i < j < events.len(),
        fetch_begins_at(start, events, i),
        no_sample_between(events, i + 1, j),
        events[j] == LoopEvent::SampleReady,
    ensures
        gate_is_open(state_before(start, events, j + 1)),
        next(state_before(start, events, j), events[j]).action == LoopAction::OpenGate,
{
    lemma_gate_closed_while_in_flight(start, events, i, j);
    assert(events.take(j + 1).drop_last() =~= events.take(j));
    assert(events.take(j + 1).last() == events[j]);
}

} // verus!
