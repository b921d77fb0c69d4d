//! One tab of the controller: a sequence under edit, the handle of the
//! worker that runs copies of it, and the cursor that the worker last
//! reported.

use vstd::prelude::*;
use crate::scripting::runner::{HandleView, RunnerHandle, RunnerMessage};
use crate::scripting::sequence::ActionSequence;
use crate::threading::{ChannelView, SendError};

verus! {

/// A tab as its contracts see it.
pub struct TabView {
    /// The tab's name.
    pub name: Seq<char>,
    /// The handle of the tab's worker.
    pub handle: HandleView,
    /// The cursor that the worker last reported.
    pub current_action_index: usize,
}

impl TabView {
    /// The tab after it has taken note of one message of the worker: a
    /// cursor report moves the cursor shown, the end of the sequence puts it
    /// back to the start, and anything else leaves it.
    pub open spec fn noted(self, msg: RunnerMessage) -> TabView {
        TabView {
            current_action_index: match msg {
                RunnerMessage::CursorUpdate(cursor) => cursor,
                RunnerMessage::SequenceDeleted => 0,
                _ => self.current_action_index,
            },
            ..self
        }
    }

    /// The tab after it has received, and taken note of, every message that
    /// had arrived from the worker, oldest first.
    pub open spec fn update_runner(self) -> TabView
        decreases self.handle.channel.incoming.len(),
    {
        if self.handle.channel.incoming.len() == 0 {
            self
        } else {
            TabView { handle: self.handle.received().0, ..self }.noted(
                self.handle.channel.incoming[0],
            ).update_runner()
        }
    }
}

/// Whether the worker runs, as far as a list of its messages tells: as the
/// last `SequenceStarted` or `SequenceStopped` among them says, and as
/// `before` where there is neither.
pub open spec fn running_after(msgs: Seq<RunnerMessage>, before: bool) -> bool
    decreases msgs.len(),
{
    if msgs.len() == 0 {
        before
    } else {
        match msgs.last() {
            RunnerMessage::SequenceStarted => true,
            RunnerMessage::SequenceStopped => false,
            _ => running_after(msgs.drop_last(), before),
        }
    }
}

/// Where the cursor stands, as far as a list of the worker's messages
/// tells: where the last `CursorUpdate` among them puts it, at the start if
/// a `SequenceDeleted` came later, and at `before` where there is neither.
pub open spec fn cursor_after(msgs: Seq<RunnerMessage>, before: usize) -> usize
    decreases msgs.len(),
{
    if msgs.len() == 0 {
        before
    } else {
        match msgs.last() {
            RunnerMessage::CursorUpdate(cursor) => cursor,
            RunnerMessage::SequenceDeleted => 0,
            _ => cursor_after(msgs.drop_last(), before),
        }
    }
}

impl TabView {
    /// The note that the first of `msgs` leaves can be taken before the
    /// rest is read.
    proof fn first_message_first(msgs: Seq<RunnerMessage>, running: bool, cursor: usize)
        requires
            msgs.len() > 0,
        ensures
            running_after(msgs, running) == running_after(
                msgs.drop_first(),
                running_after(seq![msgs[0]], running),
            ),
            cursor_after(msgs, cursor) == cursor_after(
                msgs.drop_first(),
                cursor_after(seq![msgs[0]], cursor),
            ),
        decreases msgs.len(),
    {
        if msgs.len() == 1 {
            assert(msgs =~= seq![msgs[0]]);
        } else {
            TabView::first_message_first(msgs.drop_last(), running, cursor);
            assert(msgs.drop_last().drop_first() =~= msgs.drop_first().drop_last());
        }
    }

    /// A tab shows the latest that it has heard. Once it has received every
    /// message that had arrived, its note of whether the worker runs is what
    /// the last `SequenceStarted` or `SequenceStopped` said, its cursor is
    /// where the last `CursorUpdate` or `SequenceDeleted` put it, and
    /// nothing is left to receive. What it had sent is untouched.
    pub proof fn tab_shows_the_latest(self)
        ensures
            self.update_runner().handle.running == running_after(
                self.handle.channel.incoming,
                self.handle.running,
            ),
            self.update_runner().current_action_index == cursor_after(
                self.handle.channel.incoming,
                self.current_action_index,
            ),
            self.update_runner().handle.channel == (ChannelView {
                incoming: Seq::empty(),
                ..self.handle.channel
            }),
            self.update_runner().name == self.name,
            self.update_runner().handle.name == self.handle.name,
        decreases self.handle.channel.incoming.len(),
    {
        let msgs = self.handle.channel.incoming;
        if msgs.len() == 0 {
            assert(msgs =~= Seq::empty());
        } else {
            let next = TabView { handle: self.handle.received().0, ..self }.noted(msgs[0]);
            next.tab_shows_the_latest();
            TabView::first_message_first(msgs, self.handle.running, self.current_action_index);
            let first = seq![msgs[0]];
            assert(running_after(first.drop_last(), self.handle.running) == self.handle.running);
            assert(cursor_after(first.drop_last(), self.current_action_index)
                == self.current_action_index);
        }
    }
}

/// One tab of the controller.
#[derive(Debug)]
pub struct Tab {
    name: String,
    action_sequence: ActionSequence,
    runner_handle: RunnerHandle,
    current_action_index: usize,
}

impl View for Tab {
    type V = TabView;

    closed spec fn view(&self) -> TabView {
        TabView {
            name: self.name@,
            handle: self.runner_handle@,
            current_action_index: self.current_action_index,
        }
    }
}

impl Tab {
    /// The sequence under edit.
    pub closed spec fn sequence(&self) -> ActionSequence {
        self.action_sequence
    }

    /// A tab with its sequence and the handle of its worker, the cursor
    /// shown at the start.
    pub fn new(name: String, action_sequence: ActionSequence, runner_handle: RunnerHandle) -> (tab:
        Tab)
        ensures
            tab@ == (TabView { name: name@, handle: runner_handle@, current_action_index: 0 }),
            tab.sequence() == action_sequence,
    {
        Tab { current_action_index: 0, runner_handle, name, action_sequence }
    }

    /// The tab's name.
    pub fn name(&self) -> (name: String)
        ensures
            name@ == self@.name,
    {
        self.name.clone()
    }

    /// Whether the worker was running when it was last heard of.
    pub fn runner_running(&self) -> (running: bool)
        ensures
            running == self@.handle.running,
    {
        self.runner_handle.is_runner_running()
    }

    /// The cursor that the worker last reported.
    pub fn current_action_index(&self) -> (index: usize)
        ensures
            index == self@.current_action_index,
    {
        self.current_action_index
    }

    /// The sequence under edit. Editing it changes nothing for the worker,
    /// which runs the copy that it was sent.
    pub fn action_sequence(&mut self) -> (sequence: &mut ActionSequence)
        ensures
            *sequence == old(self).sequence(),
            final(self).sequence() == *final(sequence),
            final(self)@ == old(self)@,
    {
        &mut self.action_sequence
    }

    /// The handle of the tab's worker.
    pub fn runner_handle(&mut self) -> (handle: &mut RunnerHandle)
        ensures
            handle@ == old(self)@.handle,
            final(self)@ == (TabView { handle: final(handle)@, ..old(self)@ }),
            final(self).sequence() == old(self).sequence(),
    {
        &mut self.runner_handle
    }

    /// Receives every message that has arrived from the worker and takes
    /// note of each.
    pub fn update_runner(&mut self)
        ensures
            final(self)@ == old(self)@.update_runner(),
            final(self)@.handle.channel.incoming.len() == 0,
            final(self).sequence() == old(self).sequence(),
    {
        loop
            invariant
                self@.update_runner() == old(self)@.update_runner(),
                self.sequence() == old(self).sequence(),
            ensures
                self@.handle.channel.incoming.len() == 0,
            decreases self@.handle.channel.incoming.len(),
        {
            match self.runner_handle.try_recv() {
                Ok(msg) => match msg {
                    RunnerMessage::CursorUpdate(cursor) => {
                        self.current_action_index = cursor;
                    },
                    RunnerMessage::SequenceDeleted => {
                        self.current_action_index = 0;
                    },
                    _ => {},
                },
                Err(_) => {
                    break ;
                },
            }
        }
    }

    /// Brings the tab up to date with its worker.
    pub fn update(&mut self)
        ensures
            final(self)@ == old(self)@.update_runner(),
            final(self)@.handle.channel.incoming.len() == 0,
            final(self).sequence() == old(self).sequence(),
    {
        self.update_runner()
    }

    /// Has the worker run the sequence as it now stands: the worker is sent
    /// a copy of the sequence and then the request to start. Fails, with
    /// nothing sent, if and only if the worker is gone.
    pub fn run_sequence(&mut self) -> (sent: Result<(), SendError<RunnerMessage>>)
        ensures
            final(self).sequence() == old(self).sequence(),
            sent is Ok <==> old(self)@.handle.channel.connected,
            sent is Err ==> final(self)@ == old(self)@,
            sent is Ok ==> exists|copy: ActionSequence|
                {
                    &&& copy@ == old(self).sequence()@
                    &&& #[trigger] copy.script() == old(self).sequence().script()
                    &&& final(self)@ == (TabView {
                        handle: HandleView {
                            channel: old(self)@.handle.channel.sent(
                                RunnerMessage::SetSequence(copy),
                            ).0.sent(RunnerMessage::StartSequence).0,
                            ..old(self)@.handle
                        },
                        ..old(self)@
                    })
                },
    {
        let copy = self.action_sequence.clone();
        match self.runner_handle.send(RunnerMessage::SetSequence(copy)) {
            Ok(()) => {},
            Err(unsent) => {
                return Err(unsent);
            },
        }
        self.runner_handle.send(RunnerMessage::StartSequence)
    }

    /// Has the worker stop the run and give the sequence up. Fails, with
    /// nothing sent, if and only if the worker is gone.
    pub fn stop_sequence(&mut self) -> (sent: Result<(), SendError<RunnerMessage>>)
        ensures
            final(self).sequence() == old(self).sequence(),
            sent is Ok <==> old(self)@.handle.channel.connected,
            sent is Err ==> final(self)@ == old(self)@,
            sent is Ok ==> final(self)@ == (TabView {
                handle: HandleView {
                    channel: old(self)@.handle.channel.sent(RunnerMessage::StopSequence).0.sent(
                        RunnerMessage::CleanSequence,
                    ).0,
                    ..old(self)@.handle
                },
                ..old(self)@
            }),
    {
        match self.runner_handle.send(RunnerMessage::StopSequence) {
            Ok(()) => {},
            Err(unsent) => {
                return Err(unsent);
            },
        }
        self.runner_handle.send(RunnerMessage::CleanSequence)
    }

    /// Has the worker pause the run. Fails, with nothing sent, if and only
    /// if the worker is gone.
    pub fn pause_sequence(&mut self) -> (sent: Result<(), SendError<RunnerMessage>>)
        ensures
            final(self).sequence() == old(self).sequence(),
            sent == old(self)@.handle.channel.sent(RunnerMessage::StopSequence).1,
            final(self)@ == (TabView {
                handle: HandleView {
                    channel: old(self)@.handle.channel.sent(RunnerMessage::StopSequence).0,
                    ..old(self)@.handle
                },
                ..old(self)@
            }),
    {
        self.runner_handle.send(RunnerMessage::StopSequence)
    }

    /// Has the worker take the run up again. Fails, with nothing sent, if
    /// and only if the worker is gone.
    pub fn resume_sequence(&mut self) -> (sent: Result<(), SendError<RunnerMessage>>)
        ensures
            final(self).sequence() == old(self).sequence(),
            sent == old(self)@.handle.channel.sent(RunnerMessage::StartSequence).1,
            final(self)@ == (TabView {
                handle: HandleView {
                    channel: old(self)@.handle.channel.sent(RunnerMessage::StartSequence).0,
                    ..old(self)@.handle
                },
                ..old(self)@
            }),
    {
        self.runner_handle.send(RunnerMessage::StartSequence)
    }
}

} // verus!
