//! A list of actions and the interpreter that steps through it.

use vstd::prelude::*;
use crate::error::Error;
use crate::input::Invocation;
use crate::scripting::action::{action_views, Action, ActionView};
use crate::time::DelayView;

verus! {

/// What one step of the interpreter did.
#[derive(Debug, Clone, PartialEq)]
pub enum Step {
    /// Nothing: the sequence had halted.
    Halted,
    /// Nothing: the wait at the cursor is not over.
    StillWaiting,
    /// The wait at the cursor was started. The cursor stays.
    WaitStarted,
    /// The wait at the cursor is over and was ended. The cursor moved on.
    WaitOver,
    /// The sequence was marked as waiting, but the action at the cursor is
    /// no wait. The mark was taken off and the cursor moved on, the action
    /// left undone.
    WaitMismatch,
    /// The action at the cursor asks for this one request to the input
    /// devices, which the caller is to carry out.
    Invoked(Invocation),
}

/// A sequence as the interpreter sees it.
pub struct SequenceView {
    pub actions: Seq<ActionView>,
    pub cursor: nat,
    pub halted: bool,
    pub waiting: bool,
}

impl SequenceView {
    /// One step of the interpreter: the sequence after the step, and what
    /// the step reports. `elapsed` is the time in nanoseconds since the wait
    /// at the cursor was started; it is read only where the sequence is
    /// waiting on a wait.
    pub open spec fn step(self, elapsed: nat) -> (SequenceView, Result<Step, Error>) {
        if self.halted {
            (self, Ok(Step::Halted))
        } else if self.cursor >= self.actions.len() {
            (self, Err(Error::CursorOutOfBounds(self.cursor as usize)))
        } else if self.waiting {
            match self.actions[self.cursor as int] {
                ActionView::Wait(delay) => if delay.finished_after(elapsed) {
                    (
                        SequenceView {
                            actions: self.actions.update(
                                self.cursor as int,
                                ActionView::Wait(DelayView { started: false, ..delay }),
                            ),
                            cursor: self.cursor + 1,
                            waiting: false,
                            ..self
                        },
                        Ok(Step::WaitOver),
                    )
                } else {
                    (self, Ok(Step::StillWaiting))
                },
                _ => (
                    SequenceView { cursor: self.cursor + 1, waiting: false, ..self },
                    Ok(Step::WaitMismatch),
                ),
            }
        } else {
            match self.actions[self.cursor as int] {
                ActionView::Wait(delay) => (
                    SequenceView {
                        actions: self.actions.update(
                            self.cursor as int,
                            ActionView::Wait(DelayView { started: true, ..delay }),
                        ),
                        waiting: true,
                        ..self
                    },
                    Ok(Step::WaitStarted),
                ),
                ActionView::Stop => (
                    SequenceView { halted: true, ..self },
                    Ok(Step::Invoked(Invocation::ReleaseAll)),
                ),
                action => (
                    SequenceView { cursor: self.cursor + 1, ..self },
                    Ok(Step::Invoked(action.invocation().unwrap())),
                ),
            }
        }
    }
}

/// An ordered list of actions with the state of its interpreter: the cursor,
/// whether the run has halted, and whether it is in the middle of a wait.
#[derive(Debug, PartialEq)]
pub struct ActionSequence {
    seq: Vec<Action>,
    cursor: usize,
    requested_stop: bool,
    currently_waiting: bool,
}

impl View for ActionSequence {
    type V = SequenceView;

    open spec fn view(&self) -> SequenceView {
        SequenceView {
            actions: action_views(self.script()),
            cursor: self.spec_cursor() as nat,
            halted: self.spec_requested_stop(),
            waiting: self.currently_waiting(),
        }
    }
}

impl Clone for ActionSequence {
    /// A copy with the same actions in the same state, that shares nothing
    /// with the sequence it was made from.
    fn clone(&self) -> (copy: ActionSequence)
        ensures
            copy.script() == self.script(),
            copy.spec_cursor() == self.spec_cursor(),
            copy.spec_requested_stop() == self.spec_requested_stop(),
            copy.currently_waiting() == self.currently_waiting(),
    {
        let mut seq: Vec<Action> = Vec::new();
        let mut i: usize = 0;
        while i < self.seq.len()
            invariant
                i <= self.seq.len(),
                seq@ == self.seq@.take(i as int),
            decreases self.seq.len() - i,
        {
            seq.push(self.seq[i].clone());
            i = i + 1;
        }
        ActionSequence {
            seq,
            cursor: self.cursor,
            requested_stop: self.requested_stop,
            currently_waiting: self.currently_waiting,
        }
    }
}

impl ActionSequence {
    /// The actions, as they are held.
    pub closed spec fn script(&self) -> Seq<Action> {
        self.seq@
    }

    /// The index of the action that the next step looks at.
    pub closed spec fn spec_cursor(&self) -> usize {
        self.cursor
    }

    /// Whether the run has halted.
    pub closed spec fn spec_requested_stop(&self) -> bool {
        self.requested_stop
    }

    /// Whether the run is in the middle of a wait.
    pub closed spec fn currently_waiting(&self) -> bool {
        self.currently_waiting
    }

    /// A sequence at its start: the cursor on the first action, not halted,
    /// not waiting.
    pub fn new(seq: Vec<Action>) -> (sequence: ActionSequence)
        ensures
            sequence.script() == seq@,
            sequence.spec_cursor() == 0,
            !sequence.spec_requested_stop(),
            !sequence.currently_waiting(),
    {
        ActionSequence { seq, cursor: 0, requested_stop: false, currently_waiting: false }
    }

    /// The actions, to read or to edit. The state of the interpreter stays
    /// as it is, whatever is done to the list.
    pub fn actions(&mut self) -> (actions: &mut Vec<Action>)
        ensures
            actions@ == old(self).script(),
            final(self).script() == final(actions)@,
            final(self).spec_cursor() == old(self).spec_cursor(),
            final(self).spec_requested_stop() == old(self).spec_requested_stop(),
            final(self).currently_waiting() == old(self).currently_waiting(),
    {
        &mut self.seq
    }

    /// The index of the action that the next step looks at.
    #[verifier::when_used_as_spec(spec_cursor)]
    pub fn cursor(&self) -> (cursor: usize)
        ensures
            cursor == self.spec_cursor(),
    {
        self.cursor
    }

    /// Whether the run has halted, which it does at a stop action.
    #[verifier::when_used_as_spec(spec_requested_stop)]
    pub fn requested_stop(&self) -> (halted: bool)
        ensures
            halted == self.spec_requested_stop(),
    {
        self.requested_stop
    }

    /// One step of the interpreter, for a wait at the cursor that was
    /// started `elapsed` nanoseconds ago. The step never blocks and never
    /// touches an input device: the request that it reports is the caller's
    /// to carry out.
    pub fn run_one_after(&mut self, elapsed: u128) -> (report: Result<Step, Error>)
        ensures
            (final(self)@, report) == old(self)@.step(elapsed as nat),
            final(self).script().len() == old(self).script().len(),
            forall|i: int|
                0 <= i < old(self).script().len() && i != old(self).spec_cursor()
                    ==> final(self).script()[i] == old(self).script()[i],
            report != Ok::<Step, Error>(Step::WaitStarted) && report != Ok::<Step, Error>(
                Step::WaitOver,
            ) ==> final(self).script() == old(self).script(),
    {
        if self.requested_stop {
            return Ok(Step::Halted);
        }
        if self.cursor >= self.seq.len() {
            return Err(Error::CursorOutOfBounds(self.cursor));
        }
        let ghost before = self@;
        if self.currently_waiting {
            match &self.seq[self.cursor] {
                Action::Wait(delay) => if delay.finished_after(elapsed) {
                    let mut ended = *delay;
                    ended.end_wait();
                    self.seq.set(self.cursor, Action::Wait(ended));
                    self.currently_waiting = false;
                    self.cursor = self.cursor + 1;
                    assert(self@.actions =~= before.step(elapsed as nat).0.actions);
                    Ok(Step::WaitOver)
                } else {
                    Ok(Step::StillWaiting)
                },
                _ => {
                    self.currently_waiting = false;
                    self.cursor = self.cursor + 1;
                    Ok(Step::WaitMismatch)
                },
            }
        } else {
            match &self.seq[self.cursor] {
                Action::Wait(delay) => {
                    let mut started = *delay;
                    started.start_wait();
                    self.seq.set(self.cursor, Action::Wait(started));
                    self.currently_waiting = true;
                    assert(self@.actions =~= before.step(elapsed as nat).0.actions);
                    Ok(Step::WaitStarted)
                },
                Action::Stop => {
                    self.requested_stop = true;
                    Ok(Step::Invoked(Invocation::ReleaseAll))
                },
                action => {
                    let request = action.invocation();
                    self.cursor = self.cursor + 1;
                    Ok(Step::Invoked(request.unwrap()))
                },
            }
        }
    }

    /// The time in nanoseconds since the wait at the cursor was started, by
    /// the clock; zero where the sequence is not in a wait that was started.
    pub fn wait_elapsed(&self) -> (elapsed: u128)
        ensures
            !self@.in_started_wait() ==> elapsed == 0,
    {
        if self.currently_waiting && self.cursor < self.seq.len() {
            match &self.seq[self.cursor] {
                Action::Wait(delay) => match delay.elapsed() {
                    Some(elapsed) => elapsed,
                    None => 0,
                },
                _ => 0,
            }
        } else {
            0
        }
    }

    /// One step of the interpreter, by the clock: `run_one_after` for the
    /// time that the clock shows since the wait at the cursor was started.
    /// Whatever the clock shows, the step is one that `SequenceView::step`
    /// describes.
    pub fn run_one(&mut self) -> (report: Result<Step, Error>)
        ensures
            exists|elapsed: nat| (final(self)@, report) == #[trigger] old(self)@.step(elapsed),
            final(self).script().len() == old(self).script().len(),
            forall|i: int|
                0 <= i < old(self).script().len() && i != old(self).spec_cursor()
                    ==> final(self).script()[i] == old(self).script()[i],
            report != Ok::<Step, Error>(Step::WaitStarted) && report != Ok::<Step, Error>(
                Step::WaitOver,
            ) ==> final(self).script() == old(self).script(),
    {
        let elapsed = self.wait_elapsed();
        self.run_one_after(elapsed)
    }
}

impl SequenceView {
    /// The sequence after one step for each reading of `times`, taken in
    /// order.
    pub open spec fn steps(self, times: Seq<nat>) -> SequenceView
        decreases times.len(),
    {
        if times.len() == 0 {
            self
        } else {
            self.step(times[0]).0.steps(times.drop_first())
        }
    }

    /// What each of those steps reports, in order.
    pub open spec fn reports(self, times: Seq<nat>) -> Seq<Result<Step, Error>>
        decreases times.len(),
    {
        if times.len() == 0 {
            Seq::empty()
        } else {
            seq![self.step(times[0]).1] + self.step(times[0]).0.reports(times.drop_first())
        }
    }

    /// Whether the sequence is in the middle of a wait that was started:
    /// the one state in which a step asks what the clock shows.
    pub open spec fn in_started_wait(self) -> bool {
        &&& self.waiting
        &&& self.cursor < self.actions.len()
        &&& self.actions[self.cursor as int] matches ActionView::Wait(delay)
        &&& delay.started
    }

    /// Whether every action from the cursor on, `count` of them, is neither
    /// a wait nor a stop.
    pub open spec fn plain_ahead(self, count: nat) -> bool {
        &&& self.cursor + count <= self.actions.len()
        &&& forall|i: int| self.cursor <= i < self.cursor + count ==> self.actions[i].is_plain()
    }

    /// A halted sequence stays as it is: every step reports `Halted` and
    /// changes nothing, however many steps are made and whatever the clock
    /// shows.
    pub proof fn halted_sequence_stays(self, times: Seq<nat>)
        requires
            self.halted,
        ensures
            self.steps(times) == self,
            self.reports(times).len() == times.len(),
            forall|i: int|
                0 <= i < times.len() ==> #[trigger] self.reports(times)[i] == Ok::<Step, Error>(
                    Step::Halted,
                ),
            forall|elapsed: nat| #[trigger]
                self.step(elapsed) == (self, Ok::<Step, Error>(Step::Halted)),
        decreases times.len(),
    {
        if times.len() > 0 {
            self.halted_sequence_stays(times.drop_first());
        }
    }

    /// The step that meets a stop action asks for every key and button to
    /// be let go and halts the sequence where it is; nothing that follows
    /// moves the cursor or asks for anything more.
    pub proof fn stop_halts_for_good(self, elapsed: nat, times: Seq<nat>)
        requires
            !self.halted,
            !self.waiting,
            self.cursor < self.actions.len(),
            self.actions[self.cursor as int] is Stop,
        ensures
            self.step(elapsed).1 == Ok::<Step, Error>(Step::Invoked(Invocation::ReleaseAll)),
            self.step(elapsed).0 == (SequenceView { halted: true, ..self }),
            self.step(elapsed).0.steps(times) == self.step(elapsed).0,
            self.step(elapsed).0.steps(times).cursor == self.cursor,
    {
        self.step(elapsed).0.halted_sequence_stays(times);
    }

    /// A wait never blocks and is never cut short. The step that meets a
    /// wait starts it and leaves the cursor. From then on a step made
    /// before the delay has passed changes nothing, and the first step made
    /// once it has passed ends the wait and moves the cursor on by one.
    pub proof fn wait_holds_the_cursor(self, first: nat, early: nat, late: nat)
        requires
            !self.halted,
            !self.waiting,
            self.cursor < self.actions.len(),
            self.actions[self.cursor as int] matches ActionView::Wait(delay) && early < delay.nanos
                <= late,
        ensures
            ({
                let started = self.step(first).0;
                &&& self.step(first).1 == Ok::<Step, Error>(Step::WaitStarted)
                &&& started.cursor == self.cursor
                &&& started.waiting
                &&& started.step(early) == (started, Ok::<Step, Error>(Step::StillWaiting))
                &&& started.step(late).1 == Ok::<Step, Error>(Step::WaitOver)
                &&& started.step(late).0 == (SequenceView {
                    actions: self.actions.update(
                        self.cursor as int,
                        ActionView::Wait(
                            DelayView {
                                started: false,
                                ..self.actions[self.cursor as int]->Wait_0
                            },
                        ),
                    ),
                    cursor: self.cursor + 1,
                    ..self
                })
            }),
    {
        let started = self.step(first).0;
        assert(started.step(late).0.actions =~= self.actions.update(
            self.cursor as int,
            ActionView::Wait(
                DelayView { started: false, ..self.actions[self.cursor as int]->Wait_0 },
            ),
        ));
    }

    /// An action that is neither a wait nor a stop takes one step: the step
    /// reports the one request that the action consists of and moves the
    /// cursor on by one.
    pub proof fn plain_action_takes_one_step(self, elapsed: nat)
        requires
            !self.halted,
            !self.waiting,
            self.plain_ahead(1),
        ensures
            self.step(elapsed).0 == (SequenceView { cursor: self.cursor + 1, ..self }),
            self.step(elapsed).1 == Ok::<Step, Error>(
                Step::Invoked(self.actions[self.cursor as int].invocation().unwrap()),
            ),
    {
    }

    /// A run of `n` actions without a wait or a stop takes `n` steps: after
    /// them the cursor has moved on by `n`, and each step has reported the one
    /// request of the action it met. A sequence of `n` such actions, taken
    /// from its start, so ends with its cursor at `n`, and not before.
    pub proof fn plain_actions_advance_by_one(self, times: Seq<nat>)
        requires
            !self.halted,
            !self.waiting,
            self.plain_ahead(times.len()),
        ensures
            self.steps(times) == (SequenceView { cursor: self.cursor + times.len(), ..self }),
            self.reports(times).len() == times.len(),
            forall|i: int|
                0 <= i < times.len() ==> #[trigger] self.reports(times)[i] == Ok::<Step, Error>(
                    Step::Invoked(self.actions[self.cursor + i].invocation().unwrap()),
                ),
        decreases times.len(),
    {
        if times.len() > 0 {
            self.plain_action_takes_one_step(times[0]);
            self.step(times[0]).0.plain_actions_advance_by_one(times.drop_first());
        }
    }
}

impl SequenceView {
    /// Whether no wait is under way on any of the actions.
    pub open spec fn at_rest(actions: Seq<ActionView>) -> bool {
        forall|i: int|
            0 <= i < actions.len() ==> (#[trigger] actions[i] matches ActionView::Wait(delay)
                ==> !delay.started)
    }

    /// Whether the state of the interpreter fits the actions: the cursor is
    /// on an action or just behind the last; a wait is under way on the
    /// action at the cursor of a sequence that waits, and on no other
    /// action of any sequence; a sequence that has halted stands on the stop
    /// that halted it and waits no more.
    pub open spec fn consistent(self) -> bool {
        &&& self.cursor <= self.actions.len()
        &&& self.waiting ==> self.in_started_wait()
        &&& forall|i: int|
            0 <= i < self.actions.len() && !(self.waiting && i == self.cursor) ==> (
            #[trigger] self.actions[i] matches ActionView::Wait(delay) ==> !delay.started)
        &&& self.halted ==> !self.waiting && self.cursor < self.actions.len()
            && self.actions[self.cursor as int] is Stop
    }

    /// A sequence at its start: the cursor on the first action, not halted,
    /// not waiting.
    pub open spec fn fresh(actions: Seq<ActionView>) -> SequenceView {
        SequenceView { actions, cursor: 0, halted: false, waiting: false }
    }

    /// The interpreter keeps its state fitting the actions. A sequence at
    /// its start, made of actions at rest, is consistent; a step leaves a
    /// consistent sequence consistent, whatever the clock shows; a
    /// consistent sequence is never found waiting on what is no wait; and
    /// its step fails if and only if the cursor has run past the last
    /// action.
    pub proof fn steps_keep_the_sequence_consistent(self, elapsed: nat)
        requires
            self.consistent(),
        ensures
            self.step(elapsed).0.consistent(),
            self.step(elapsed).0.actions.len() == self.actions.len(),
            self.step(elapsed).1 != Ok::<Step, Error>(Step::WaitMismatch),
            self.step(elapsed).1 is Err <==> !self.halted && self.cursor == self.actions.len(),
            SequenceView::at_rest(self.actions) ==> SequenceView::fresh(self.actions).consistent(),
    {
    }
}

} // verus!
