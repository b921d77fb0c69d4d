//! The message channel between a controller and its worker.
//!
//! A channel has two endpoints. Each endpoint queues what its owner sends
//! and what has arrived for its owner; whoever carries the messages from
//! one endpoint to the other moves them with `flush_to`, in the order in
//! which they were sent. Receiving never blocks.

use vstd::prelude::*;
use std::collections::VecDeque;

verus! {

/// A message that could not be sent because the other endpoint is gone. It
/// holds the message.
#[derive(Debug, Clone, PartialEq)]
pub struct SendError<T>(pub T);

/// Why nothing was received.
#[derive(Debug, Clone, Copy, PartialEq, Eq, Structural)]
pub enum TryRecvError {
    /// Nothing has arrived, but the other endpoint is still there.
    Empty,
    /// Nothing has arrived, and the other endpoint is gone.
    Disconnected,
}

/// What an endpoint holds.
pub struct ChannelView<T> {
    /// What has arrived and was not yet received, oldest first.
    pub incoming: Seq<T>,
    /// What was sent and was not yet carried over, oldest first.
    pub outgoing: Seq<T>,
    /// Whether the other endpoint is still there.
    pub connected: bool,
}

impl<T> ChannelView<T> {
    /// An endpoint with nothing queued and its peer alive.
    pub open spec fn fresh() -> ChannelView<T> {
        ChannelView { incoming: Seq::empty(), outgoing: Seq::empty(), connected: true }
    }

    /// The endpoint after `send`, and whether the message was taken.
    pub open spec fn sent(self, msg: T) -> (ChannelView<T>, Result<(), SendError<T>>) {
        if self.connected {
            (ChannelView { outgoing: self.outgoing.push(msg), ..self }, Ok(()))
        } else {
            (self, Err(SendError(msg)))
        }
    }

    /// The endpoint after `try_recv`, and what was received.
    pub open spec fn received(self) -> (ChannelView<T>, Result<T, TryRecvError>) {
        if self.incoming.len() > 0 {
            (ChannelView { incoming: self.incoming.drop_first(), ..self }, Ok(self.incoming[0]))
        } else if self.connected {
            (self, Err(TryRecvError::Empty))
        } else {
            (self, Err(TryRecvError::Disconnected))
        }
    }

    /// The endpoint after each of `msgs` was sent, in order.
    pub open spec fn sent_all(self, msgs: Seq<T>) -> ChannelView<T>
        decreases msgs.len(),
    {
        if msgs.len() == 0 {
            self
        } else {
            self.sent(msgs[0]).0.sent_all(msgs.drop_first())
        }
    }

    /// What `count` calls of `try_recv` hand out, in order, as far as each of
    /// them receives a message.
    pub open spec fn received_all(self, count: nat) -> Seq<T>
        decreases count,
    {
        if count == 0 || self.received().1 is Err {
            Seq::empty()
        } else {
            seq![self.received().1->Ok_0] + self.received().0.received_all((count - 1) as nat)
        }
    }

    /// Sending queues every message behind those queued before, as long as
    /// the peer is there.
    pub proof fn sent_all_queues_in_order(self, msgs: Seq<T>)
        requires
            self.connected,
        ensures
            self.sent_all(msgs) == (ChannelView { outgoing: self.outgoing + msgs, ..self }),
        decreases msgs.len(),
    {
        if msgs.len() > 0 {
            let next = self.sent(msgs[0]).0;
            next.sent_all_queues_in_order(msgs.drop_first());
            assert(next.outgoing + msgs.drop_first() =~= self.outgoing + msgs);
        }
    }

    /// Receiving hands out what has arrived, oldest first.
    pub proof fn received_all_is_the_queue(self)
        ensures
            self.received_all(self.incoming.len()) == self.incoming,
        decreases self.incoming.len(),
    {
        if self.incoming.len() > 0 {
            self.received().0.received_all_is_the_queue();
        }
    }

    /// Messages are delivered in the order in which they were sent, none
    /// lost, none doubled, none out of turn: what one endpoint sends on a
    /// channel with nothing under way is, once carried over, exactly what
    /// the other endpoint receives, message for message.
    pub proof fn delivery_is_first_in_first_out(self, peer: ChannelView<T>, msgs: Seq<T>)
        requires
            self.connected,
            self.outgoing.len() == 0,
            peer.incoming.len() == 0,
        ensures
            ({
                let arrived = ChannelView {
                    incoming: peer.incoming + self.sent_all(msgs).outgoing,
                    ..peer
                };
                arrived.received_all(msgs.len()) == msgs
            }),
    {
        self.sent_all_queues_in_order(msgs);
        let arrived = ChannelView { incoming: peer.incoming + self.sent_all(msgs).outgoing, ..peer };
        assert(arrived.incoming =~= msgs);
        arrived.received_all_is_the_queue();
    }
}

/// One endpoint of a two-way channel.
#[derive(Debug)]
pub struct Channel<T> {
    incoming: VecDeque<T>,
    outgoing: VecDeque<T>,
    connected: bool,
}

impl<T> View for Channel<T> {
    type V = ChannelView<T>;

    closed spec fn view(&self) -> ChannelView<T> {
        ChannelView {
            incoming: self.incoming@,
            outgoing: self.outgoing@,
            connected: self.connected,
        }
    }
}

impl<T> Channel<T> {
    /// The two endpoints of a new channel, with nothing under way.
    pub fn new_pair() -> (pair: (Channel<T>, Channel<T>))
        ensures
            pair.0@ == ChannelView::<T>::fresh(),
            pair.1@ == ChannelView::<T>::fresh(),
    {
        (
            Channel { incoming: VecDeque::new(), outgoing: VecDeque::new(), connected: true },
            Channel { incoming: VecDeque::new(), outgoing: VecDeque::new(), connected: true },
        )
    }

    /// Queues a message for the other endpoint. Fails, and hands the
    /// message back, if and only if the other endpoint is gone.
    pub fn send(&mut self, msg: T) -> (sent: Result<(), SendError<T>>)
        ensures
            (final(self)@, sent) == old(self)@.sent(msg),
    {
        if self.connected {
            self.outgoing.push_back(msg);
            Ok(())
        } else {
            Err(SendError(msg))
        }
    }

    /// Takes the oldest message that has arrived, without waiting for one.
    pub fn try_recv(&mut self) -> (received: Result<T, TryRecvError>)
        ensures
            (final(self)@, received) == old(self)@.received(),
    {
        match self.incoming.pop_front() {
            Some(msg) => Ok(msg),
            None => if self.connected {
                Err(TryRecvError::Empty)
            } else {
                Err(TryRecvError::Disconnected)
            },
        }
    }

    /// Whether the other endpoint is still there.
    pub fn is_connected(&self) -> (connected: bool)
        ensures
            connected == self@.connected,
    {
        self.connected
    }

    /// How many messages have arrived and wait to be received.
    pub fn pending(&self) -> (count: usize)
        ensures
            count == self@.incoming.len(),
    {
        self.incoming.len()
    }

    /// Puts a message from the other side at the end of the arrivals.
    pub fn deliver(&mut self, msg: T)
        ensures
            final(self)@ == (ChannelView { incoming: old(self)@.incoming.push(msg), ..old(self)@ }),
    {
        self.incoming.push_back(msg);
    }

    /// Takes the oldest message that was sent and not yet carried over.
    pub fn take_outgoing(&mut self) -> (msg: Option<T>)
        ensures
            old(self)@.outgoing.len() == 0 ==> msg is None && final(self)@ == old(self)@,
            old(self)@.outgoing.len() > 0 ==> msg == Some(old(self)@.outgoing[0]) && final(self)@
                == (ChannelView { outgoing: old(self)@.outgoing.drop_first(), ..old(self)@ }),
    {
        self.outgoing.pop_front()
    }

    /// Carries everything that was sent here over to `peer`, behind what
    /// has already arrived there, in the order in which it was sent.
    pub fn flush_to(&mut self, peer: &mut Channel<T>)
        ensures
            final(self)@ == (ChannelView { outgoing: Seq::empty(), ..old(self)@ }),
            final(peer)@ == (ChannelView {
                incoming: old(peer)@.incoming + old(self)@.outgoing,
                ..old(peer)@
            }),
    {
        peer.incoming.append(&mut self.outgoing);
    }

    /// Marks the other endpoint as gone. What has arrived can still be
    /// received; nothing more can be sent.
    pub fn disconnect(&mut self)
        ensures
            final(self)@ == (ChannelView { connected: false, ..old(self)@ }),
    {
        self.connected = false;
    }

    /// Gives this endpoint up: what it had sent is carried over to `peer`,
    /// which then finds it gone.
    pub fn hang_up(self, peer: &mut Channel<T>)
        ensures
            final(peer)@ == (ChannelView {
                incoming: old(peer)@.incoming + self@.outgoing,
                connected: false,
                ..old(peer)@
            }),
    {
        let mut endpoint = self;
        endpoint.flush_to(peer);
        peer.disconnect();
    }
}

} // verus!
