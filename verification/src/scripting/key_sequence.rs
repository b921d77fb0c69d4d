//! The blocking interpreter: a sequence replayed one action a step, each
//! wait slept through where it stands.

use vstd::prelude::*;
use crate::error::Error;
use crate::input::Invocation;
use crate::scripting::action::{action_views, Action, ActionView};
use crate::scripting::sequence::{SequenceView, Step};

verus! {

impl SequenceView {
    /// One step of the blocking interpreter: the sequence after the step,
    /// and what the step reports. A wait asks the caller to sleep for its
    /// length and is then done; the sequence is never left waiting.
    pub open spec fn replay(self) -> (SequenceView, Result<Step, Error>) {
        if self.halted {
            (self, Ok(Step::Halted))
        } else if self.cursor >= self.actions.len() {
            (self, Err(Error::CursorOutOfBounds(self.cursor as usize)))
        } else {
            match self.actions[self.cursor as int] {
                ActionView::Stop => (
                    SequenceView { halted: true, ..self },
                    Ok(Step::Invoked(Invocation::ReleaseAll)),
                ),
                ActionView::Wait(delay) => (
                    SequenceView { cursor: self.cursor + 1, ..self },
                    Ok(Step::Invoked(Invocation::Sleep(delay.nanos as u64))),
                ),
                action => (
                    SequenceView { cursor: self.cursor + 1, ..self },
                    Ok(Step::Invoked(action.invocation().unwrap())),
                ),
            }
        }
    }

    /// Every step of the blocking interpreter that meets an action other
    /// than a stop asks for one thing and moves the cursor on by one; the
    /// step that meets a stop halts the sequence, and a halted sequence
    /// stays as it is.
    pub proof fn replay_takes_one_action_a_step(self)
        ensures
            self.halted ==> self.replay() == (self, Ok::<Step, Error>(Step::Halted)),
            !self.halted && self.cursor < self.actions.len() ==> self.replay().1 matches Ok(
                Step::Invoked(_),
            ),
            !self.halted && self.cursor < self.actions.len() && !(self.actions[self.cursor as int]
                is Stop) ==> self.replay().0 == (SequenceView { cursor: self.cursor + 1, ..self }),
            !self.halted && self.cursor < self.actions.len() && self.actions[self.cursor as int]
                is Stop ==> self.replay().0 == (SequenceView { halted: true, ..self }),
    {
    }
}

/// An ordered list of actions with the state of the blocking interpreter:
/// the cursor, and whether the run has halted.
#[derive(Debug, Clone, PartialEq)]
pub struct KeySequence {
    seq: Vec<Action>,
    cursor: usize,
    requested_stop: bool,
}

impl View for KeySequence {
    type V = SequenceView;

    open spec fn view(&self) -> SequenceView {
        SequenceView {
            actions: action_views(self.script()),
            cursor: self.spec_cursor() as nat,
            halted: self.spec_requested_stop(),
            waiting: false,
        }
    }
}

impl KeySequence {
    /// The actions, as they are held.
    pub closed spec fn script(&self) -> Seq<Action> {
        self.seq@
    }

    /// The index of the action that the next step carries out.
    pub closed spec fn spec_cursor(&self) -> usize {
        self.cursor
    }

    /// Whether the run has halted.
    pub closed spec fn spec_requested_stop(&self) -> bool {
        self.requested_stop
    }

    /// A sequence at its start: the cursor on the first action, not halted.
    pub fn new(seq: Vec<Action>) -> (sequence: KeySequence)
        ensures
            sequence.script() == seq@,
            sequence.spec_cursor() == 0,
            !sequence.spec_requested_stop(),
    {
        KeySequence { seq, cursor: 0, requested_stop: false }
    }

    /// The actions, to read or to edit. The state of the interpreter stays
    /// as it is, whatever is done to the list.
    pub fn actions(&mut self) -> (actions: &mut Vec<Action>)
        ensures
            actions@ == old(self).script(),
            final(self).script() == final(actions)@,
            final(self).spec_cursor() == old(self).spec_cursor(),
            final(self).spec_requested_stop() == old(self).spec_requested_stop(),
    {
        &mut self.seq
    }

    /// The index of the action that the next step carries out.
    #[verifier::when_used_as_spec(spec_cursor)]
    pub fn cursor(&self) -> (cursor: usize)
        ensures
            cursor == self.spec_cursor(),
    {
        self.cursor
    }

    /// Whether the run has halted, which it does at a stop action.
    #[verifier::when_used_as_spec(spec_requested_stop)]
    pub fn requested_stop(&self) -> (halted: bool)
        ensures
            halted == self.spec_requested_stop(),
    {
        self.requested_stop
    }

    /// One step of the blocking interpreter. What the step reports is the
    /// caller's to carry out before the next step: a request to the input
    /// devices, or a sleep of the length of a wait.
    pub fn run_one(&mut self) -> (report: Result<Step, Error>)
        ensures
            (final(self)@, report) == old(self)@.replay(),
            final(self).script() == old(self).script(),
    {
        if self.requested_stop {
            return Ok(Step::Halted);
        }
        if self.cursor >= self.seq.len() {
            return Err(Error::CursorOutOfBounds(self.cursor));
        }
        match &self.seq[self.cursor] {
            Action::Stop => {
                self.requested_stop = true;
                Ok(Step::Invoked(Invocation::ReleaseAll))
            },
            Action::Wait(delay) => {
                let nanos = delay.as_nanos();
                self.cursor = self.cursor + 1;
                Ok(Step::Invoked(Invocation::Sleep(nanos)))
            },
            action => {
                let request = action.invocation();
                self.cursor = self.cursor + 1;
                Ok(Step::Invoked(request.unwrap()))
            },
        }
    }
}

} // verus!
