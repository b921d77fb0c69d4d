//! The worker that runs a sequence under remote control, and the handle by
//! which a controller drives it.
//!
//! Controller and worker share nothing. They exchange messages over a
//! channel: requests one way, acknowledgements and cursor reports the other.

use vstd::prelude::*;
use crate::error::Error;
use crate::scripting::sequence::{ActionSequence, SequenceView, Step};
use crate::threading::{Channel, ChannelView, SendError, TryRecvError};

verus! {

/// What controller and worker say to each other. Each request is followed
/// in the list by its acknowledgement.
#[derive(Debug, Clone, PartialEq)]
pub enum RunnerMessage {
    /// Request: take this sequence in place of the one held.
    SetSequence(ActionSequence),
    SequenceSet,
    /// Request: run the sequence held.
    StartSequence,
    SequenceStarted,
    /// Request: pause the run.
    StopSequence,
    SequenceStopped,
    /// Request: give the sequence up.
    CleanSequence,
    SequenceDeleted,
    /// Request: put the cursor back to the start. The worker does not act
    /// on it.
    ResetCursor,
    SequenceCursorReset,
    /// Report: the cursor of the running sequence stands here.
    CursorUpdate(usize),
    /// Report: the worker has ended.
    Goodbye,
}

impl RunnerMessage {
    /// The acknowledgement that answers a request: `None` for a message
    /// that is no request the worker acts on.
    pub open spec fn acknowledgement(self) -> Option<RunnerMessage> {
        match self {
            RunnerMessage::SetSequence(_) => Some(RunnerMessage::SequenceSet),
            RunnerMessage::StartSequence => Some(RunnerMessage::SequenceStarted),
            RunnerMessage::StopSequence => Some(RunnerMessage::SequenceStopped),
            RunnerMessage::CleanSequence => Some(RunnerMessage::SequenceDeleted),
            _ => None,
        }
    }

    /// Everything that the worker sends in answer to a request that it
    /// carries out, in the order in which it sends it.
    pub open spec fn replies(self) -> Seq<RunnerMessage> {
        match self {
            RunnerMessage::SetSequence(_) => seq![RunnerMessage::SequenceSet],
            RunnerMessage::StartSequence => seq![RunnerMessage::SequenceStarted],
            RunnerMessage::StopSequence => seq![RunnerMessage::SequenceStopped],
            RunnerMessage::CleanSequence => seq![
                RunnerMessage::SequenceDeleted,
                RunnerMessage::SequenceStopped,
            ],
            _ => Seq::empty(),
        }
    }
}

/// The worker as its contracts see it.
pub struct WorkerView {
    /// The worker's endpoint of the channel.
    pub channel: ChannelView<RunnerMessage>,
    /// The sequence held, if any.
    pub sequence: Option<SequenceView>,
    /// Whether the sequence is being run.
    pub running: bool,
    /// Whether the worker has been told, or has found, that it must end.
    pub shutdown: bool,
    /// The cursor that was last reported to the controller.
    pub last_cursor: usize,
    /// The worker's name.
    pub name: Seq<char>,
}

impl WorkerView {
    /// The worker that holds nothing and runs nothing.
    pub open spec fn fresh(channel: ChannelView<RunnerMessage>, name: Seq<char>) -> WorkerView {
        WorkerView {
            channel,
            sequence: None,
            running: false,
            shutdown: false,
            last_cursor: 0,
            name,
        }
    }

    /// The worker after it has tried to send `msg`: the message is queued,
    /// or, where the controller is gone, the worker is marked to end.
    pub open spec fn emit(self, msg: RunnerMessage) -> WorkerView {
        if self.channel.connected {
            WorkerView { channel: self.channel.sent(msg).0, ..self }
        } else {
            WorkerView { shutdown: true, ..self }
        }
    }

    /// After `SetSequence`: the sequence is held, loaded and not running.
    pub open spec fn set_sequence(self, sequence: SequenceView) -> WorkerView {
        WorkerView { sequence: Some(sequence), running: false, ..self }.emit(
            RunnerMessage::SequenceSet,
        )
    }

    /// After `StartSequence`: a worker that holds a sequence runs it; one
    /// that holds none stays as it is and acknowledges nothing.
    pub open spec fn start(self) -> WorkerView {
        if self.sequence is Some {
            WorkerView { running: true, ..self }.emit(RunnerMessage::SequenceStarted)
        } else {
            self
        }
    }

    /// After a sequence was handed over to be run at once.
    pub open spec fn run_new(self, sequence: SequenceView) -> WorkerView {
        WorkerView {
            running: true,
            ..WorkerView { sequence: Some(sequence), ..self }.emit(RunnerMessage::SequenceSet)
        }.emit(RunnerMessage::SequenceStarted)
    }

    /// After `StopSequence`, or a halt: the run is paused.
    pub open spec fn stop(self) -> WorkerView {
        WorkerView { running: false, ..self }.emit(RunnerMessage::SequenceStopped)
    }

    /// After `CleanSequence`: no sequence is held.
    pub open spec fn clean(self) -> WorkerView {
        WorkerView {
            running: false,
            ..WorkerView { sequence: None, ..self }.emit(RunnerMessage::SequenceDeleted)
        }.emit(RunnerMessage::SequenceStopped)
    }

    /// The worker after it has acted on one message.
    pub open spec fn handle(self, msg: RunnerMessage) -> WorkerView {
        match msg {
            RunnerMessage::SetSequence(sequence) => self.set_sequence(sequence@),
            RunnerMessage::CleanSequence => self.clean(),
            RunnerMessage::StartSequence => self.start(),
            RunnerMessage::StopSequence => self.stop(),
            _ => self,
        }
    }

    /// The worker after it has looked into the channel once: it acts on the
    /// oldest message, does nothing where there is none, and is marked to
    /// end where the controller is gone.
    pub open spec fn handle_channel(self) -> WorkerView {
        match self.channel.received().1 {
            Ok(msg) => WorkerView { channel: self.channel.received().0, ..self }.handle(msg),
            Err(TryRecvError::Empty) => self,
            Err(TryRecvError::Disconnected) => WorkerView { shutdown: true, ..self },
        }
    }

    /// The worker after it has reported the cursor: a cursor that differs
    /// from the one last reported is sent and remembered, any other is
    /// passed over.
    pub open spec fn update_tab(self) -> WorkerView {
        match self.sequence {
            Some(sequence) => if sequence.cursor as usize == self.last_cursor {
                self
            } else {
                WorkerView { last_cursor: sequence.cursor as usize, ..self }.emit(
                    RunnerMessage::CursorUpdate(sequence.cursor as usize),
                )
            },
            None => self,
        }
    }

    /// The worker after one step of its sequence, and what the step
    /// reported. Without a sequence, or with one that has halted, the run
    /// is paused and no step is made. A step that fails pauses the run too.
    pub open spec fn run_sequence(self, elapsed: nat) -> (WorkerView, Option<Result<Step, Error>>) {
        match self.sequence {
            Some(sequence) => if sequence.halted {
                (self.stop(), None)
            } else {
                let (next, report) = sequence.step(elapsed);
                let stepped = WorkerView { sequence: Some(next), ..self };
                if report is Err {
                    (stepped.stop(), Some(report))
                } else {
                    (stepped, Some(report))
                }
            },
            None => (self.stop(), None),
        }
    }

    /// One turn of the worker's loop: look into the channel; then, if
    /// running, report the cursor; then, if still running, make one step.
    pub open spec fn turn(self, elapsed: nat) -> (WorkerView, Option<Result<Step, Error>>) {
        let handled = self.handle_channel();
        let reported = if handled.running {
            handled.update_tab()
        } else {
            handled
        };
        if reported.running {
            reported.run_sequence(elapsed)
        } else {
            (reported, None)
        }
    }

    /// The worker after its last act: the sequence is given up and the
    /// controller is told goodbye.
    pub open spec fn exit(self) -> WorkerView {
        self.clean().emit(RunnerMessage::Goodbye)
    }
}

/// The worker: it owns one endpoint of the channel and, at most, one
/// sequence.
#[derive(Debug)]
pub struct RunnerThread {
    channel: Channel<RunnerMessage>,
    current_sequence: Option<ActionSequence>,
    name: String,
    sequence_running: bool,
    requested_stop: bool,
    last_cursor_update_sent: usize,
}

impl View for RunnerThread {
    type V = WorkerView;

    closed spec fn view(&self) -> WorkerView {
        WorkerView {
            channel: self.channel@,
            sequence: match self.current_sequence {
                Some(sequence) => Some(sequence@),
                None => None,
            },
            running: self.sequence_running,
            shutdown: self.requested_stop,
            last_cursor: self.last_cursor_update_sent,
            name: self.name@,
        }
    }
}

impl RunnerThread {
    /// A worker on its endpoint of the channel, holding no sequence.
    pub fn new(channel: Channel<RunnerMessage>, name: String) -> (worker: RunnerThread)
        ensures
            worker@ == WorkerView::fresh(channel@, name@),
    {
        RunnerThread {
            channel,
            name,
            current_sequence: None,
            sequence_running: false,
            requested_stop: false,
            last_cursor_update_sent: 0,
        }
    }

    /// The worker's name.
    pub fn name(&self) -> (name: String)
        ensures
            name@ == self@.name,
    {
        self.name.clone()
    }

    /// Whether the sequence is being run.
    pub fn is_running(&self) -> (running: bool)
        ensures
            running == self@.running,
    {
        self.sequence_running
    }

    /// The state that the worker is in.
    pub fn phase(&self) -> (phase: RunnerPhase)
        ensures
            phase == self@.phase(),
    {
        if self.current_sequence.is_none() {
            RunnerPhase::Idle
        } else if self.sequence_running {
            RunnerPhase::Running
        } else {
            RunnerPhase::Loaded
        }
    }

    /// Whether the worker must end: its loop is over and `exit` is due.
    pub fn requested_stop(&self) -> (shutdown: bool)
        ensures
            shutdown == self@.shutdown,
    {
        self.requested_stop
    }

    /// The worker's endpoint, for whoever carries the messages.
    pub fn channel(&mut self) -> (channel: &mut Channel<RunnerMessage>)
        ensures
            channel@ == old(self)@.channel,
            final(self)@ == (WorkerView { channel: final(channel)@, ..old(self)@ }),
    {
        &mut self.channel
    }

    /// Sends a message to the controller. Where the controller is gone the
    /// worker is marked to end.
    fn emit(&mut self, msg: RunnerMessage)
        ensures
            final(self)@ == old(self)@.emit(msg),
    {
        match self.channel.send(msg) {
            Ok(()) => {},
            Err(_) => {
                self.requested_stop = true;
            },
        }
    }

    /// Looks into the channel once and acts on what is there.
    pub fn handle_channel(&mut self)
        ensures
            final(self)@ == old(self)@.handle_channel(),
    {
        match self.channel.try_recv() {
            Ok(msg) => match msg {
                RunnerMessage::SetSequence(sequence) => self.set_sequence_without_running(sequence),
                RunnerMessage::CleanSequence => self.delete_current_sequence(),
                RunnerMessage::StartSequence => {
                    let _ = self.run_current_sequence();
                },
                RunnerMessage::StopSequence => self.stop_current_sequence(),
                _ => {},
            },
            Err(TryRecvError::Empty) => {},
            Err(TryRecvError::Disconnected) => {
                self.requested_stop = true;
            },
        }
    }

    /// Takes a sequence in place of the one held and acknowledges it. The
    /// sequence is loaded, not run.
    pub fn set_sequence_without_running(&mut self, seq: ActionSequence)
        ensures
            final(self)@ == old(self)@.set_sequence(seq@),
    {
        self.current_sequence = Some(seq);
        self.sequence_running = false;
        self.emit(RunnerMessage::SequenceSet);
    }

    /// Starts, or resumes, the run of the sequence held and acknowledges
    /// it. Fails, and changes nothing, if and only if no sequence is held.
    pub fn run_current_sequence(&mut self) -> (started: Result<(), ()>)
        ensures
            final(self)@ == old(self)@.start(),
            started is Ok <==> old(self)@.sequence is Some,
    {
        if self.current_sequence.is_some() {
            self.sequence_running = true;
            self.emit(RunnerMessage::SequenceStarted);
            Ok(())
        } else {
            Err(())
        }
    }

    /// Takes a sequence and runs it at once, acknowledging both.
    pub fn run_new_sequence(&mut self, seq: ActionSequence)
        ensures
            final(self)@ == old(self)@.run_new(seq@),
    {
        self.current_sequence = Some(seq);
        self.emit(RunnerMessage::SequenceSet);
        self.sequence_running = true;
        self.emit(RunnerMessage::SequenceStarted);
    }

    /// Pauses the run and says so.
    pub fn stop_current_sequence(&mut self)
        ensures
            final(self)@ == old(self)@.stop(),
    {
        self.sequence_running = false;
        self.emit(RunnerMessage::SequenceStopped);
    }

    /// Gives the sequence up and says so.
    pub fn delete_current_sequence(&mut self)
        ensures
            final(self)@ == old(self)@.clean(),
    {
        self.current_sequence = None;
        self.emit(RunnerMessage::SequenceDeleted);
        self.sequence_running = false;
        self.emit(RunnerMessage::SequenceStopped);
    }

    /// Makes one step of the sequence, for a wait at its cursor that was
    /// started `elapsed` nanoseconds ago. The report is that of the step,
    /// `None` where none was made.
    pub fn run_sequence_after(&mut self, elapsed: u128) -> (report: Option<Result<Step, Error>>)
        ensures
            (final(self)@, report) == old(self)@.run_sequence(elapsed as nat),
    {
        match self.current_sequence.take() {
            Some(sequence) => {
                let mut sequence = sequence;
                if sequence.requested_stop() {
                    self.current_sequence = Some(sequence);
                    self.stop_current_sequence();
                    None
                } else {
                    let report = sequence.run_one_after(elapsed);
                    self.current_sequence = Some(sequence);
                    if report.is_err() {
                        self.stop_current_sequence();
                    }
                    Some(report)
                }
            },
            None => {
                self.stop_current_sequence();
                None
            },
        }
    }

    /// Makes one step of the sequence, by the clock. Whatever the clock
    /// shows, the outcome is one that `WorkerView::run_sequence` describes.
    pub fn run_sequence(&mut self) -> (report: Option<Result<Step, Error>>)
        ensures
            exists|elapsed: nat|
                (final(self)@, report) == #[trigger] old(self)@.run_sequence(elapsed),
    {
        let elapsed = match &self.current_sequence {
            Some(sequence) => sequence.wait_elapsed(),
            None => 0,
        };
        self.run_sequence_after(elapsed)
    }

    /// Reports the cursor of the sequence to the controller, unless it is
    /// the cursor that was reported last.
    pub fn update_tab(&mut self)
        ensures
            final(self)@ == old(self)@.update_tab(),
    {
        let cursor = match &self.current_sequence {
            Some(sequence) => sequence.cursor(),
            None => {
                return ;
            },
        };
        if cursor == self.last_cursor_update_sent {
            return ;
        }
        self.last_cursor_update_sent = cursor;
        self.emit(RunnerMessage::CursorUpdate(cursor));
    }

    /// One turn of the worker's loop, for a wait that was started `elapsed`
    /// nanoseconds ago. The caller repeats it until `requested_stop`, carries
    /// out what each turn reports, and calls `exit` at the end.
    pub fn turn_after(&mut self, elapsed: u128) -> (report: Option<Result<Step, Error>>)
        ensures
            (final(self)@, report) == old(self)@.turn(elapsed as nat),
    {
        self.handle_channel();
        if self.sequence_running {
            self.update_tab();
        }
        if self.sequence_running {
            self.run_sequence_after(elapsed)
        } else {
            None
        }
    }

    /// One turn of the worker's loop, by the clock. Whatever the clock
    /// shows, the outcome is one that `WorkerView::turn` describes.
    pub fn turn(&mut self) -> (report: Option<Result<Step, Error>>)
        ensures
            exists|elapsed: nat| (final(self)@, report) == #[trigger] old(self)@.turn(elapsed),
    {
        self.handle_channel();
        if self.sequence_running {
            self.update_tab();
        }
        if self.sequence_running {
            let ghost reported = self@;
            let report = self.run_sequence();
            proof {
                let elapsed = choose|elapsed: nat|
                    (self@, report) == #[trigger] reported.run_sequence(elapsed);
                assert((self@, report) == old(self)@.turn(elapsed));
            }
            report
        } else {
            assert((self@, None::<Result<Step, Error>>) == old(self)@.turn(0));
            None
        }
    }

    /// The worker's last act: it gives the sequence up and tells the
    /// controller goodbye.
    pub fn exit(&mut self)
        ensures
            final(self)@ == old(self)@.exit(),
    {
        self.delete_current_sequence();
        self.emit(RunnerMessage::Goodbye);
    }
}

/// The controller's side of a worker, as its contracts see it.
pub struct HandleView {
    /// The controller's endpoint of the channel.
    pub channel: ChannelView<RunnerMessage>,
    /// The worker's name.
    pub name: Seq<char>,
    /// Whether the worker was running when it was last heard of.
    pub running: bool,
}

impl HandleView {
    /// The handle after `try_recv`, and what was received. The note of
    /// whether the worker runs follows the acknowledgements: `true` on
    /// `SequenceStarted`, `false` on `SequenceStopped`, else as before.
    pub open spec fn received(self) -> (HandleView, Result<RunnerMessage, TryRecvError>) {
        let received = self.channel.received().1;
        (
            HandleView {
                channel: self.channel.received().0,
                running: match received {
                    Ok(RunnerMessage::SequenceStarted) => true,
                    Ok(RunnerMessage::SequenceStopped) => false,
                    _ => self.running,
                },
                ..self
            },
            received,
        )
    }
}

/// The controller's side of a worker: its endpoint of the channel, and a
/// note of whether the worker runs, kept from the acknowledgements alone.
#[derive(Debug)]
pub struct RunnerHandle {
    thread_channel: Channel<RunnerMessage>,
    name: String,
    key_sequence_running: bool,
}

impl View for RunnerHandle {
    type V = HandleView;

    closed spec fn view(&self) -> HandleView {
        HandleView {
            channel: self.thread_channel@,
            name: self.name@,
            running: self.key_sequence_running,
        }
    }
}

/// The name of the worker with this id.
pub open spec fn runner_name(id: Seq<char>) -> Seq<char> {
    "RunnerThread id: "@ + id
}

impl RunnerHandle {
    /// The handle of the worker with this id, on the controller's endpoint
    /// of the channel. The worker is not known to run.
    pub fn new(id: String, thread_channel: Channel<RunnerMessage>) -> (handle: RunnerHandle)
        ensures
            handle@ == (HandleView {
                channel: thread_channel@,
                name: runner_name(id@),
                running: false,
            }),
    {
        let mut name = String::from_str("RunnerThread id: ");
        name.append(id.as_str());
        RunnerHandle { thread_channel, name, key_sequence_running: false }
    }

    /// The worker's name.
    pub fn name(&self) -> (name: String)
        ensures
            name@ == self@.name,
    {
        self.name.clone()
    }

    /// Queues a request for the worker. Fails, and hands the request back,
    /// if and only if the worker is gone.
    pub fn send(&mut self, msg: RunnerMessage) -> (sent: Result<(), SendError<RunnerMessage>>)
        ensures
            sent == old(self)@.channel.sent(msg).1,
            final(self)@ == (HandleView { channel: old(self)@.channel.sent(msg).0, ..old(self)@ }),
    {
        self.thread_channel.send(msg)
    }

    /// Takes the oldest message of the worker, without waiting for one, and
    /// notes from it whether the worker runs.
    pub fn try_recv(&mut self) -> (received: Result<RunnerMessage, TryRecvError>)
        ensures
            (final(self)@, received) == old(self)@.received(),
    {
        let received = self.thread_channel.try_recv();
        match &received {
            Ok(RunnerMessage::SequenceStarted) => {
                self.key_sequence_running = true;
            },
            Ok(RunnerMessage::SequenceStopped) => {
                self.key_sequence_running = false;
            },
            _ => {},
        }
        received
    }

    /// Whether the worker was running when it was last heard of.
    pub fn is_runner_running(&self) -> (running: bool)
        ensures
            running == self@.running,
    {
        self.key_sequence_running
    }

    /// The controller's endpoint, for whoever carries the messages.
    pub fn channel(&mut self) -> (channel: &mut Channel<RunnerMessage>)
        ensures
            channel@ == old(self)@.channel,
            final(self)@ == (HandleView { channel: final(channel)@, ..old(self)@ }),
    {
        &mut self.thread_channel
    }
}

/// Everything that the worker sends in answer to a list of requests that it
/// carries out, in the order in which it sends it.
pub open spec fn all_replies(msgs: Seq<RunnerMessage>) -> Seq<RunnerMessage>
    decreases msgs.len(),
{
    if msgs.len() == 0 {
        Seq::empty()
    } else {
        msgs[0].replies() + all_replies(msgs.drop_first())
    }
}

impl WorkerView {
    /// The worker after it has acted on each of `msgs`, in order.
    pub open spec fn handle_all(self, msgs: Seq<RunnerMessage>) -> WorkerView
        decreases msgs.len(),
    {
        if msgs.len() == 0 {
            self
        } else {
            self.handle(msgs[0]).handle_all(msgs.drop_first())
        }
    }

    /// Whether the worker can carry out each of `msgs` in its turn: every
    /// `StartSequence` among them finds a sequence held.
    pub open spec fn can_carry_out(self, msgs: Seq<RunnerMessage>) -> bool
        decreases msgs.len(),
    {
        msgs.len() == 0 || {
            &&& msgs[0] is StartSequence ==> self.sequence is Some
            &&& self.handle(msgs[0]).can_carry_out(msgs.drop_first())
        }
    }

    /// The worker after one turn of its loop for each reading of `times`.
    pub open spec fn turns(self, times: Seq<nat>) -> WorkerView
        decreases times.len(),
    {
        if times.len() == 0 {
            self
        } else {
            self.turn(times[0]).0.turns(times.drop_first())
        }
    }

    /// Whether the worker is running a sequence that is in the middle of a
    /// wait which, `elapsed` nanoseconds after its start, is not over.
    pub open spec fn waits_at(self, elapsed: nat) -> bool {
        &&& self.running
        &&& self.sequence matches Some(sequence)
        &&& !sequence.halted
        &&& sequence.waiting
        &&& sequence.cursor < sequence.actions.len()
        &&& sequence.actions[sequence.cursor as int] matches crate::scripting::action::ActionView::Wait(delay)
        &&& !delay.finished_after(elapsed)
    }
}

/// Each request has one acknowledgement, and the worker's answer to the
/// request holds it once, in the first place.
pub proof fn request_is_acknowledged_once(msg: RunnerMessage)
    requires
        msg.acknowledgement() is Some,
    ensures
        msg.replies().len() >= 1,
        msg.replies()[0] == msg.acknowledgement().unwrap(),
        forall|i: int|
            1 <= i < msg.replies().len() ==> msg.replies()[i] != msg.acknowledgement().unwrap(),
{
}

impl WorkerView {
    /// A worker whose controller is there answers a request that it carries
    /// out with the replies of that request, sent behind everything sent
    /// before, and with nothing else. A `StartSequence` that finds no
    /// sequence is not carried out and gets no answer.
    pub proof fn request_is_answered(self, msg: RunnerMessage)
        requires
            self.channel.connected,
            msg is StartSequence ==> self.sequence is Some,
        ensures
            self.handle(msg).channel.outgoing == self.channel.outgoing + msg.replies(),
            self.handle(msg).channel.connected,
            self.handle(msg).channel.incoming == self.channel.incoming,
            self.handle(msg).shutdown == self.shutdown,
    {
    }

    /// A turn answers before it reports. In the turn that takes a request
    /// up, the replies to the request are sent behind everything sent
    /// before and ahead of whatever else the turn sends, and the request is
    /// gone from the arrivals.
    pub proof fn turn_answers_first(self, elapsed: nat)
        requires
            self.channel.connected,
            self.channel.incoming.len() > 0,
            self.channel.incoming[0] is StartSequence ==> self.sequence is Some,
        ensures
            (self.channel.outgoing + self.channel.incoming[0].replies()).is_prefix_of(
                self.turn(elapsed).0.channel.outgoing,
            ),
            self.turn(elapsed).0.channel.incoming == self.channel.incoming.drop_first(),
    {
        let taken = WorkerView { channel: self.channel.received().0, ..self };
        taken.request_is_answered(self.channel.incoming[0]);
    }

    /// A request to stop, or to give the sequence up, takes effect in the
    /// turn that takes it up: the worker makes no step in that turn and is
    /// not running after it. The sequence itself is not touched by a stop.
    pub proof fn stop_takes_effect_at_once(self, elapsed: nat)
        requires
            self.channel.incoming.len() > 0,
            self.channel.incoming[0] is StopSequence || self.channel.incoming[0] is CleanSequence,
        ensures
            self.turn(elapsed).1 is None,
            !self.turn(elapsed).0.running,
            self.channel.incoming[0] is StopSequence ==> self.turn(elapsed).0.sequence
                == self.sequence,
            self.channel.incoming[0] is CleanSequence ==> self.turn(elapsed).0.sequence is None,
    {
    }

    /// Requests are answered in the order in which they are taken up: what
    /// the worker has sent after a list of requests is what it had sent
    /// before, then the replies to the first request, then those to the
    /// second, and so on to the last.
    pub proof fn requests_are_answered_in_order(self, msgs: Seq<RunnerMessage>)
        requires
            self.channel.connected,
            self.can_carry_out(msgs),
        ensures
            self.handle_all(msgs).channel.outgoing == self.channel.outgoing + all_replies(msgs),
        decreases msgs.len(),
    {
        if msgs.len() == 0 {
        } else {
            self.request_is_answered(msgs[0]);
            self.handle(msgs[0]).requests_are_answered_in_order(msgs.drop_first());
            assert(self.channel.outgoing + msgs[0].replies() + all_replies(msgs.drop_first())
                =~= self.channel.outgoing + all_replies(msgs));
        }
    }

    /// A cursor that stays is reported once. A report is sent only for a
    /// cursor that differs from the one reported last, and is remembered;
    /// so a second report in a row sends nothing.
    pub proof fn cursor_report_is_not_repeated(self)
        ensures
            self.update_tab().update_tab() == self.update_tab(),
            self.sequence matches Some(sequence) && sequence.cursor as usize == self.last_cursor
                ==> self.update_tab() == self,
    {
    }

    /// In the middle of a wait the worker is silent. A running worker with
    /// nothing to receive, whose sequence sits in a wait that is not over,
    /// sends in one turn at most the one report of that cursor; every
    /// further turn made before the wait is over changes nothing and sends
    /// nothing.
    pub proof fn waiting_worker_reports_once(self, first: nat, later: Seq<nat>)
        requires
            self.channel.connected,
            self.channel.incoming.len() == 0,
            self.waits_at(first),
            forall|i: int| 0 <= i < later.len() ==> self.waits_at(later[i]),
        ensures
            self.turn(first).0 == self.update_tab(),
            self.turn(first).0.turns(later) == self.turn(first).0,
            self.turn(first).0.channel.outgoing == self.channel.outgoing
                || self.turn(first).0.channel.outgoing == self.channel.outgoing.push(
                RunnerMessage::CursorUpdate(self.sequence.unwrap().cursor as usize),
            ),
        decreases later.len(),
    {
        let settled = self.turn(first).0;
        if later.len() > 0 {
            assert forall|i: int| 0 <= i < later.drop_first().len() implies settled.waits_at(
                later.drop_first()[i],
            ) by {
                assert(self.waits_at(later[i + 1]));
            }
            settled.waiting_worker_reports_once(later[0], later.drop_first());
        }
    }

    /// Once marked to end, a worker stays marked.
    pub proof fn shutdown_is_kept(self, times: Seq<nat>)
        requires
            self.shutdown,
        ensures
            self.turns(times).shutdown,
        decreases times.len(),
    {
        if times.len() > 0 {
            self.turn(times[0]).0.shutdown_is_kept(times.drop_first());
        }
    }

    /// A worker whose controller is gone ends within a bounded number of
    /// turns: one for each message that had still arrived, and one more.
    pub proof fn lost_controller_ends_the_worker(self, times: Seq<nat>)
        requires
            !self.channel.connected,
            times.len() > self.channel.incoming.len(),
        ensures
            self.turns(times).shutdown,
        decreases times.len(),
    {
        let next = self.turn(times[0]).0;
        if self.channel.incoming.len() == 0 {
            next.shutdown_is_kept(times.drop_first());
        } else {
            next.lost_controller_ends_the_worker(times.drop_first());
        }
    }

    /// The worker's last act leaves it without a sequence and not running.
    /// A controller that is still there is sent the end of the sequence and
    /// then, as the last message, goodbye.
    pub proof fn exit_says_goodbye(self)
        ensures
            self.exit().sequence is None,
            !self.exit().running,
            self.channel.connected ==> self.exit().channel.outgoing == self.channel.outgoing
                + seq![
                RunnerMessage::SequenceDeleted,
                RunnerMessage::SequenceStopped,
                RunnerMessage::Goodbye,
            ],
    {
        if self.channel.connected {
            assert(self.exit().channel.outgoing =~= self.channel.outgoing + seq![
                RunnerMessage::SequenceDeleted,
                RunnerMessage::SequenceStopped,
                RunnerMessage::Goodbye,
            ]);
        }
    }
}

/// The three states of a worker.
#[derive(Debug, Clone, Copy, PartialEq, Eq, Structural)]
pub enum RunnerPhase {
    /// No sequence is held.
    Idle,
    /// A sequence is held and not run.
    Loaded,
    /// A sequence is held and run.
    Running,
}

impl WorkerView {
    /// Whether the worker runs only what it holds: a worker without a
    /// sequence is not running.
    pub open spec fn consistent(self) -> bool {
        self.running ==> self.sequence is Some
    }

    /// The state that the worker is in.
    pub open spec fn phase(self) -> RunnerPhase {
        if self.sequence is None {
            RunnerPhase::Idle
        } else if self.running {
            RunnerPhase::Running
        } else {
            RunnerPhase::Loaded
        }
    }

    /// The worker moves between its states as the requests say.
    /// `SetSequence` leaves it loaded and `CleanSequence` idle, whatever it
    /// was. `StartSequence` sets a worker that holds a sequence running and
    /// leaves an idle one as it is. `StopSequence` takes a running worker
    /// back to loaded and leaves any other in its state. No other message
    /// changes anything. The worker stays consistent throughout.
    pub proof fn requests_move_the_worker(self, msg: RunnerMessage)
        requires
            self.consistent(),
        ensures
            self.handle(msg).consistent(),
            msg is SetSequence ==> self.handle(msg).phase() is Loaded,
            msg is CleanSequence ==> self.handle(msg).phase() is Idle,
            msg is StartSequence && !(self.phase() is Idle) ==> self.handle(msg).phase()
                is Running,
            msg is StartSequence && self.phase() is Idle ==> self.handle(msg) == self,
            msg is StopSequence && self.phase() is Running ==> self.handle(msg).phase() is Loaded,
            msg is StopSequence && !(self.phase() is Running) ==> self.handle(msg).phase()
                == self.phase(),
            msg.acknowledgement() is None ==> self.handle(msg) == self,
    {
    }

    /// A turn of the loop leaves a consistent worker consistent. A running
    /// worker whose sequence has halted, or whose step fails, is loaded
    /// after the turn and has said that the run stopped.
    pub proof fn turns_keep_the_worker_consistent(self, elapsed: nat)
        requires
            self.consistent(),
        ensures
            self.turn(elapsed).0.consistent(),
            self.run_sequence(elapsed).0.consistent(),
            self.update_tab().consistent(),
            self.exit().consistent(),
            self.sequence matches Some(sequence) && (sequence.halted || sequence.step(elapsed).1
                is Err) ==> {
                &&& self.run_sequence(elapsed).0.phase() is Loaded
                &&& self.channel.connected ==> self.run_sequence(elapsed).0.channel.outgoing
                    == self.channel.outgoing.push(RunnerMessage::SequenceStopped)
            },
    {
    }
}

} // verus!
