//! The bounded queue in front of each actor.

use crate::message::{MessageView, RelayMessage};
use std::collections::VecDeque;
use vstd::prelude::*;

verus! {

/// How many messages a mailbox holds before its producers have to wait.
pub const MAILBOX_CAPACITY: usize = 32;

/// The messages of a queue, as plain values.
pub open spec fn messages_view(queue: Seq<RelayMessage>) -> Seq<MessageView> {
    queue.map_values(|m: RelayMessage| m@)
}

/// Whether a queue has room for one more message.
pub open spec fn has_room(queue: Seq<MessageView>) -> bool {
    queue.len() < MAILBOX_CAPACITY
}

/// The queue after `message` was offered: it goes behind the messages that
/// wait while there is room, and nowhere else.
pub open spec fn after_send(queue: Seq<MessageView>, message: MessageView) -> Seq<MessageView> {
    if has_room(queue) {
        queue.push(message)
    } else {
        queue
    }
}

/// The queue after the consumer asked for a message: the one that has
/// waited longest is gone.
pub open spec fn after_receive(queue: Seq<MessageView>) -> Seq<MessageView> {
    if queue.len() > 0 {
        queue.skip(1)
    } else {
        queue
    }
}

/// What a producer or the consumer does to a mailbox.
pub enum MailboxOp {
    /// A producer offers a message.
    Send(MessageView),
    /// The consumer asks for the next message.
    Receive,
}

/// A mailbox followed over time: what waits in it, what its producers got
/// into it, and what its consumer got out of it, each in the order in which
/// it happened.
pub struct MailboxTrace {
    pub queue: Seq<MessageView>,
    pub accepted: Seq<MessageView>,
    pub delivered: Seq<MessageView>,
}

impl MailboxTrace {
    /// The trace of a mailbox that nothing has happened to yet.
    pub open spec fn start() -> MailboxTrace {
        MailboxTrace { queue: Seq::empty(), accepted: Seq::empty(), delivered: Seq::empty() }
    }

    /// One operation: a message is accepted while there is room and refused
    /// else; the consumer gets the message that has waited longest.
    pub open spec fn apply(self, op: MailboxOp) -> MailboxTrace {
        match op {
            MailboxOp::Send(m) => MailboxTrace {
                queue: after_send(self.queue, m),
                accepted: if has_room(self.queue) {
                    self.accepted.push(m)
                } else {
                    self.accepted
                },
                delivered: self.delivered,
            },
            MailboxOp::Receive => MailboxTrace {
                queue: after_receive(self.queue),
                accepted: self.accepted,
                delivered: if self.queue.len() > 0 {
                    self.delivered.push(self.queue[0])
                } else {
                    self.delivered
                },
            },
        }
    }

    /// The operations of `ops`, one after the other.
    pub open spec fn run(self, ops: Seq<MailboxOp>) -> MailboxTrace
        decreases ops.len(),
    {
        if ops.len() == 0 {
            self
        } else {
            self.run(ops.drop_last()).apply(ops.last())
        }
    }
}

/// The queue in front of one actor: many producers put messages in, the
/// actor's relay takes them out, first in first out. It never holds more
/// than [`MAILBOX_CAPACITY`] messages and never drops one.
#[derive(Debug)]
pub struct Mailbox {
    queue: VecDeque<RelayMessage>,
}

impl View for Mailbox {
    type V = Seq<MessageView>;

    closed spec fn view(&self) -> Seq<MessageView> {
        messages_view(self.queue@)
    }
}

impl Mailbox {
    /// A mailbox never holds more than its capacity.
    pub open spec fn wf(&self) -> bool {
        self@.len() <= MAILBOX_CAPACITY
    }

    /// An empty mailbox.
    pub fn new() -> (res: Self)
        ensures
            res.wf(),
            res@ == Seq::<MessageView>::empty(),
    {
        let res = Mailbox { queue: VecDeque::new() };
        res
    }

    /// How many messages wait.
    pub fn len(&self) -> (res: usize)
        ensures
            res == self@.len(),
    {
        self.queue.len()
    }

    /// Whether no message waits.
    pub fn is_empty(&self) -> (res: bool)
        ensures
            res == (self@.len() == 0),
    {
        self.queue.len() == 0
    }

    /// Whether a producer has to wait for room.
    pub fn is_full(&self) -> (res: bool)
        ensures
            res == !has_room(self@),
    {
        self.queue.len() >= MAILBOX_CAPACITY
    }

    /// Puts `message` behind the messages that wait. A full mailbox takes
    /// nothing and hands the message back, for the producer to offer again
    /// once there is room.
    pub fn try_send(&mut self, message: RelayMessage) -> (res: Result<(), RelayMessage>)
        ensures
            old(self).wf() ==> final(self).wf(),
            final(self)@ == after_send(old(self)@, message@),
            match res {
                Ok(()) => has_room(old(self)@),
                Err(back) => !has_room(old(self)@) && back@ == message@,
            },
    {
        if self.queue.len() >= MAILBOX_CAPACITY {
            Err(message)
        } else {
            self.queue.push_back(message);
            Ok(())
        }
    }

    /// Takes out the message that has waited longest, if any waits.
    pub fn receive(&mut self) -> (res: Option<RelayMessage>)
        ensures
            old(self).wf() ==> final(self).wf(),
            final(self)@ == after_receive(old(self)@),
            match res {
                Some(m) => old(self)@.len() > 0 && m@ == old(self)@[0],
                None => old(self)@.len() == 0,
            },
    {
        let front = self.queue.pop_front();
        match front {
            Some(m) => {
                Some(m)
            },
            None => None,
        }
    }
}

/// Messages leave a mailbox in the order in which they entered it: whatever
/// producers and consumer do, and in whatever order, what was accepted is
/// what was delivered followed by what still waits. So the consumer has seen
/// a prefix of what was sent, nothing was dropped, and nothing overtook.
pub proof fn mailbox_is_fifo(ops: Seq<MailboxOp>)
    ensures
        ({
            let t = MailboxTrace::start().run(ops);
            &&& t.accepted == t.delivered + t.queue
            &&& t.delivered.is_prefix_of(t.accepted)
            &&& t.queue.len() <= MAILBOX_CAPACITY
        }),
    decreases ops.len(),
{
    let t = MailboxTrace::start().run(ops);
    if ops.len() == 0 {
        assert(t.accepted =~= t.delivered + t.queue);
    } else {
        mailbox_is_fifo(ops.drop_last());
        let before = MailboxTrace::start().run(ops.drop_last());
        assert(t == before.apply(ops.last()));
        assert(t.accepted =~= t.delivered + t.queue);
    }
}

} // verus!
