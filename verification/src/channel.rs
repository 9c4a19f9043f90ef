//! Command channel: the bounded FIFO queue that carries parsed relay
//! commands from the dispatcher, running in the receive path, to the
//! scheduling engine, running in its own task. The bound gives deliberate
//! backpressure: a full queue refuses the next command and the producer
//! suspends until the engine has consumed one — a burst delays frame
//! processing but never loses an accepted command. Commands leave in
//! arrival order, so commands for one relay are applied as sent.

use vstd::prelude::*;
use crate::relais::MAX_RELAIS;
use crate::relais_message::RelaisMessage;

verus! {

/// How many commands the channel can hold at once.
pub const CHANNEL_CAPACITY: usize = MAX_RELAIS;

/// What a send does: a queue below capacity takes the message at the back;
/// a full queue stays as it is and reports the refusal.
pub open spec fn spec_try_send(q: Seq<RelaisMessage>, msg: RelaisMessage) -> (
    Seq<RelaisMessage>,
    bool,
) {
    if q.len() < CHANNEL_CAPACITY {
        (q.push(msg), true)
    } else {
        (q, false)
    }
}

/// What a receive does: the oldest message leaves the front; an empty
/// queue yields nothing.
pub open spec fn spec_try_receive(q: Seq<RelaisMessage>) -> (
    Seq<RelaisMessage>,
    Option<RelaisMessage>,
) {
    if q.len() == 0 {
        (q, None)
    } else {
        (q.subrange(1, q.len() as int), Some(q[0]))
    }
}

/// The bounded FIFO queue between dispatcher and engine.
pub struct CommandQueue {
    items: Vec<RelaisMessage>,
}

impl View for CommandQueue {
    type V = Seq<RelaisMessage>;

    closed spec fn view(&self) -> Seq<RelaisMessage> {
        self.items@
    }
}

impl CommandQueue {
    /// The queue never holds more than its capacity.
    pub open spec fn wf(self) -> bool {
        self@.len() <= CHANNEL_CAPACITY
    }

    /// An empty channel.
    pub fn new() -> (q: CommandQueue)
        ensures
            q.wf(),
            q@ == Seq::<RelaisMessage>::empty(),
    {
        let q = CommandQueue { items: Vec::new() };
        proof {
            assert(q@ =~= Seq::<RelaisMessage>::empty());
        }
        q
    }

    /// How many commands wait in the channel.
    pub fn len(&self) -> (n: usize)
        ensures
            n == self@.len(),
    {
        self.items.len()
    }

    /// Offers one command to the channel. Below capacity it is appended
    /// and accepted; at capacity nothing changes and the refusal tells the
    /// producer to suspend until the engine has consumed a command.
    pub fn try_send(&mut self, msg: RelaisMessage) -> (accepted: bool)
        requires
            old(self).wf(),
        ensures
            final(self).wf(),
            (final(self)@, accepted) == spec_try_send(old(self)@, msg),
    {
        if self.items.len() < CHANNEL_CAPACITY {
            self.items.push(msg);
            true
        } else {
            false
        }
    }

    /// Takes the oldest waiting command, if any.
    pub fn try_receive(&mut self) -> (r: Option<RelaisMessage>)
        requires
            old(self).wf(),
        ensures
            final(self).wf(),
            (final(self)@, r) == spec_try_receive(old(self)@),
    {
        if self.items.len() == 0 {
            None
        } else {
            let msg = self.items.remove(0);
            Some(msg)
        }
    }
}

/// Backpressure: a full channel refuses a further command and keeps what it
/// holds, and as soon as one command is consumed the refused command is
/// accepted — behind the one consumed, with nothing lost and the order of
/// everything else kept.
pub proof fn lemma_backpressure(q: Seq<RelaisMessage>, msg: RelaisMessage)
    requires
        q.len() == CHANNEL_CAPACITY,
    ensures
        spec_try_send(q, msg) == (q, false),
        ({
            let (after_recv, first) = spec_try_receive(q);
            let (after_send, accepted) = spec_try_send(after_recv, msg);
            &&& first == Some(q[0])
            &&& accepted
            &&& after_send == q.subrange(1, q.len() as int).push(msg)
        }),
{
}

} // verus!
