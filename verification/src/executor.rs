//! The decisions of a runner that drives one task to completion.
//!
//! The runner itself is a loop that never returns: it consumes the wake
//! flag, polls the task when the flag was set, halts the core when it was
//! not, and spins forever once the task is done. That loop needs the
//! machine; what it decides in each turn does not, and is stated here.

use crate::flag::Flag;
use core::future::Future;
use vstd::prelude::*;

verus! {

/// What one poll of the task reported. The task's completion value is of no
/// interest to the runner and is dropped by whoever polls.
#[derive(Debug, Clone, Copy, PartialEq, Eq)]
pub enum Outcome {
    Pending,
    Ready,
}

/// What the runner does in one turn of its loop.
#[derive(Debug, Clone, Copy, PartialEq, Eq)]
pub enum Action {
    /// Poll the task once and report the outcome.
    Poll,
    /// Halt the core until an interrupt arrives, then look again.
    Wait,
    /// The task is done: spin forever.
    Hang,
}

/// The runner's state as contracts see it.
pub struct RunnerState {
    /// A wake signal is waiting to be consumed.
    pub awake: bool,
    /// The task has reported completion.
    pub finished: bool,
}

/// Something that happens to the runner.
#[derive(Debug, Clone, Copy, PartialEq, Eq)]
pub enum Event {
    /// A wake signal arrives from outside.
    Signal,
    /// The runner takes one turn of its loop; should it poll the task in
    /// this turn, the task answers with the given outcome.
    Turn(Outcome),
}

/// How often each action was chosen over a run of events.
#[derive(Debug, Clone, Copy, PartialEq, Eq)]
pub struct Tally {
    pub polls: usize,
    pub waits: usize,
    pub hangs: usize,
}

/// The state after a wake signal.
pub open spec fn on_signal(s: RunnerState) -> RunnerState {
    RunnerState { awake: true, finished: s.finished }
}

/// The action the runner chooses in state `s`.
pub open spec fn action_in(s: RunnerState) -> Action {
    if s.finished {
        Action::Hang
    } else if s.awake {
        Action::Poll
    } else {
        Action::Wait
    }
}

/// The state after the runner has chosen its action: unless the task is
/// done, the wake flag has been consumed.
pub open spec fn after_choice(s: RunnerState) -> RunnerState {
    if s.finished {
        s
    } else {
        RunnerState { awake: false, finished: false }
    }
}

/// The state after a poll has reported `outcome`.
pub open spec fn on_outcome(s: RunnerState, outcome: Outcome) -> RunnerState {
    match outcome {
        Outcome::Pending => s,
        Outcome::Ready => RunnerState { awake: s.awake, finished: true },
    }
}

/// The state after one whole turn of the loop, in which a poll, if one is
/// made, reports `outcome`.
pub open spec fn after_turn(s: RunnerState, outcome: Outcome) -> RunnerState {
    if action_in(s) == Action::Poll {
        on_outcome(after_choice(s), outcome)
    } else {
        after_choice(s)
    }
}

/// The state after one event.
pub open spec fn after_event(s: RunnerState, event: Event) -> RunnerState {
    match event {
        Event::Signal => on_signal(s),
        Event::Turn(outcome) => after_turn(s, outcome),
    }
}

/// The state after a sequence of events.
pub open spec fn after_events(s: RunnerState, events: Seq<Event>) -> RunnerState
    decreases events.len(),
{
    if events.len() == 0 {
        s
    } else {
        after_events(after_event(s, events[0]), events.skip(1))
    }
}

/// How often `action` is chosen while the runner goes through `events`.
pub open spec fn count_of(action: Action, s: RunnerState, events: Seq<Event>) -> nat
    decreases events.len(),
{
    if events.len() == 0 {
        0
    } else {
        let here: nat = match events[0] {
            Event::Signal => 0,
            Event::Turn(_) => if action_in(s) == action { 1 } else { 0 },
        };
        here + count_of(action, after_event(s, events[0]), events.skip(1))
    }
}

/// `count` wake signals in a row.
pub open spec fn signals(count: nat) -> Seq<Event> {
    Seq::new(count, |i: int| Event::Signal)
}

/// A run of turns with no signal in between, whose polls, if any are made,
/// report `outcomes` in order.
pub open spec fn turns(outcomes: Seq<Outcome>) -> Seq<Event> {
    Seq::new(outcomes.len(), |i: int| Event::Turn(outcomes[i]))
}

/// Any number of signals in a row, one at least, leave the runner in the
/// state that a single signal leaves it in, and no action is chosen while
/// they arrive.
pub proof fn signals_collapse(s: RunnerState, count: nat, action: Action)
    requires
        count >= 1,
    ensures
        after_events(s, signals(count)) == on_signal(s),
        count_of(action, s, signals(count)) == 0,
    decreases count,
{
    let events = signals(count);
    assert(events[0] == Event::Signal);
    assert(events.skip(1) =~= signals((count - 1) as nat));
    if count == 1 {
        assert(after_events(on_signal(s), events.skip(1)) == on_signal(s));
        assert(count_of(action, on_signal(s), events.skip(1)) == 0);
    } else {
        signals_collapse(on_signal(s), (count - 1) as nat, action);
    }
}

/// Going through one run of events and then another is going through both
/// in a row.
pub proof fn events_in_a_row(s: RunnerState, first: Seq<Event>, second: Seq<Event>, action: Action)
    ensures
        after_events(s, first + second) == after_events(after_events(s, first), second),
        count_of(action, s, first + second) == count_of(action, s, first) + count_of(
            action,
            after_events(s, first),
            second,
        ),
    decreases first.len(),
{
    if first.len() == 0 {
        assert(first + second =~= second);
    } else {
        let all = first + second;
        assert(all[0] == first[0]);
        assert(all.skip(1) =~= first.skip(1) + second);
        events_in_a_row(after_event(s, first[0]), first.skip(1), second, action);
    }
}

/// While no signal is pending and none arrives, every turn of an unfinished
/// runner halts the core: it polls nothing, and the state stays as it is, so
/// that the flag is looked at again only after the halt.
pub proof fn idle_turns_wait(s: RunnerState, outcomes: Seq<Outcome>)
    requires
        !s.awake,
        !s.finished,
    ensures
        count_of(Action::Wait, s, turns(outcomes)) == outcomes.len(),
        count_of(Action::Poll, s, turns(outcomes)) == 0,
        count_of(Action::Hang, s, turns(outcomes)) == 0,
        after_events(s, turns(outcomes)) == s,
    decreases outcomes.len(),
{
    let events = turns(outcomes);
    if outcomes.len() > 0 {
        assert(events[0] == Event::Turn(outcomes[0]));
        assert(events.skip(1) =~= turns(outcomes.skip(1)));
        assert(after_event(s, events[0]) == s);
        idle_turns_wait(s, outcomes.skip(1));
    }
}

/// Once the task has reported completion the runner never polls it again
/// and never halts: whatever signals arrive, every turn hangs.
pub proof fn finished_never_polls(s: RunnerState, events: Seq<Event>)
    requires
        s.finished,
    ensures
        count_of(Action::Poll, s, events) == 0,
        count_of(Action::Wait, s, events) == 0,
        after_events(s, events).finished,
    decreases events.len(),
{
    if events.len() > 0 {
        finished_never_polls(after_event(s, events[0]), events.skip(1));
    }
}

/// A signal that arrives while the task is being polled is not slept on:
/// if the poll reports that the task is not done, the very next turn polls
/// again instead of halting the core.
pub proof fn wake_during_poll(s: RunnerState)
    requires
        action_in(s) == Action::Poll,
    ensures
        action_in(on_outcome(on_signal(after_choice(s)), Outcome::Pending)) == Action::Poll,
        action_in(on_outcome(after_choice(s), Outcome::Pending)) == Action::Wait,
{
}

/// Wake signals coalesce: however many arrive before the runner next looks,
/// one at least, the turns that follow poll the task exactly once.
pub proof fn wake_coalescing(s: RunnerState, count: nat, outcomes: Seq<Outcome>)
    requires
        count >= 1,
        !s.finished,
        outcomes.len() >= 1,
    ensures
        count_of(Action::Poll, s, signals(count) + turns(outcomes)) == 1,
{
    let woken = on_signal(s);
    let events = turns(outcomes);
    signals_collapse(s, count, Action::Poll);
    events_in_a_row(s, signals(count), events, Action::Poll);
    assert(events[0] == Event::Turn(outcomes[0]));
    assert(events.skip(1) =~= turns(outcomes.skip(1)));
    let polled = after_event(woken, events[0]);
    if polled.finished {
        finished_never_polls(polled, events.skip(1));
    } else {
        idle_turns_wait(polled, outcomes.skip(1));
    }
}

/// Owns the one task of the program together with its wake flag, and decides
/// turn by turn what the runner loop does.
pub struct Executor<F: Future> {
    awake: Flag,
    finished: bool,
    future: F,
}

impl<F: Future> View for Executor<F> {
    type V = RunnerState;

    closed spec fn view(&self) -> RunnerState {
        RunnerState { awake: self.awake@, finished: self.finished }
    }
}

impl<F: Future> Executor<F> {
    /// The task that this runner owns.
    pub closed spec fn task(&self) -> F {
        self.future
    }

    /// Takes ownership of the task. Nothing is pending yet and nothing is
    /// polled before the first wake signal.
    pub fn new(future: F) -> (executor: Self)
        ensures
            executor@ == (RunnerState { awake: false, finished: false }),
            executor.task() == future,
    {
        Self { awake: Flag::new(), finished: false, future }
    }

    /// Records a wake signal. This is all that a waker handed to the task
    /// ever does.
    pub fn signal(&mut self)
        ensures
            final(self)@ == on_signal(old(self)@),
            final(self).task() == old(self).task(),
    {
        self.awake.signal();
    }

    /// Chooses the action of the next turn. Unless the task is done, the
    /// wake flag is consumed: it is polled if the flag was set, and the core
    /// is halted if it was not.
    pub fn next_action(&mut self) -> (action: Action)
        ensures
            action == action_in(old(self)@),
            final(self)@ == after_choice(old(self)@),
            final(self).task() == old(self).task(),
    {
        if self.finished {
            Action::Hang
        } else if self.awake.take() {
            Action::Poll
        } else {
            Action::Wait
        }
    }

    /// Records what a poll of the task reported. After `Ready` the runner
    /// never polls again.
    pub fn record(&mut self, outcome: Outcome)
        ensures
            final(self)@ == on_outcome(old(self)@, outcome),
            final(self).task() == old(self).task(),
    {
        match outcome {
            Outcome::Pending => {},
            Outcome::Ready => {
                self.finished = true;
            },
        }
    }

    /// Goes through `events` as the runner loop would, with the polls
    /// answered as the events say, and returns how often it polled the task,
    /// halted the core, and hung. This is the loop with its end in sight: a
    /// harness can run it on a script and look at what it did.
    pub fn drive(&mut self, events: &[Event]) -> (tally: Tally)
        ensures
            tally.polls == count_of(Action::Poll, old(self)@, events@),
            tally.waits == count_of(Action::Wait, old(self)@, events@),
            tally.hangs == count_of(Action::Hang, old(self)@, events@),
            final(self)@ == after_events(old(self)@, events@),
            final(self).task() == old(self).task(),
    {
        let mut tally = Tally { polls: 0, waits: 0, hangs: 0 };
        let mut i: usize = 0;
        assert(events@.skip(0) =~= events@);
        while i < events.len()
            invariant
                i <= events@.len(),
                tally.polls + tally.waits + tally.hangs <= i,
                tally.polls + count_of(Action::Poll, self@, events@.skip(i as int)) == count_of(
                    Action::Poll,
                    old(self)@,
                    events@,
                ),
                tally.waits + count_of(Action::Wait, self@, events@.skip(i as int)) == count_of(
                    Action::Wait,
                    old(self)@,
                    events@,
                ),
                tally.hangs + count_of(Action::Hang, self@, events@.skip(i as int)) == count_of(
                    Action::Hang,
                    old(self)@,
                    events@,
                ),
                after_events(self@, events@.skip(i as int)) == after_events(old(self)@, events@),
                self.task() == old(self).task(),
            decreases events@.len() - i,
        {
            proof {
                let rest = events@.skip(i as int);
                assert(rest[0] == events@[i as int]);
                assert(rest.skip(1) =~= events@.skip(i + 1));
            }
            match events[i] {
                Event::Signal => {
                    self.signal();
                },
                Event::Turn(outcome) => {
                    match self.next_action() {
                        Action::Poll => {
                            self.record(outcome);
                            tally.polls += 1;
                        },
                        Action::Wait => {
                            tally.waits += 1;
                        },
                        Action::Hang => {
                            tally.hangs += 1;
                        },
                    }
                },
            }
            i += 1;
        }
        tally
    }

    /// The task, for the one who polls it.
    pub fn task_mut(&mut self) -> (task: &mut F)
        ensures
            *task == old(self).task(),
            final(self)@ == old(self)@,
            final(self).task() == *final(task),
    {
        &mut self.future
    }
}

} // verus!
