//! The event bus: an unbounded FIFO of tagged category messages from
//! the samplers to the single consumer. Sending never blocks and never
//! drops a message; receiving is non-blocking and hands back at most
//! one message per call. Order within one sampler's stream is kept;
//! nothing is promised across samplers.

use vstd::prelude::*;

use crate::disk::Disk;
use crate::host::HostSummary;
use crate::network::Network;
use crate::process::Process;
use crate::temperature::Temperature;

verus! {

/// One tagged category message, the latest value for that category.
pub enum Message {
    Processes(Vec<Process>),
    Network(Network),
    CpuUsage(Vec<u32>),
    MemUsage(u32),
    DiskUsage(Vec<Disk>),
    Temperature(Vec<Temperature>),
    GeneralInfo(HostSummary),
}

/// The queue of messages not yet consumed, oldest first.
pub struct EventBus {
    queue: Vec<Message>,
}

impl View for EventBus {
    type V = Seq<Message>;

    closed spec fn view(&self) -> Seq<Message> {
        self.queue@
    }
}

impl EventBus {
    pub fn new() -> (b: EventBus)
        ensures
            b@ == Seq::<Message>::empty(),
    {
        EventBus { queue: Vec::new() }
    }

    pub fn len(&self) -> (n: usize)
        ensures
            n == self@.len(),
    {
        self.queue.len()
    }

    /// Publishes a message: appended at the back, never blocking the
    /// producer and never dropped (the queue is unbounded).
    pub fn send(&mut self, m: Message)
        ensures
            final(self)@ == old(self)@.push(m),
    {
        self.queue.push(m);
    }

    /// Takes the oldest message, if any: non-blocking, at most one per
    /// call, and `None` exactly on an empty bus, which it leaves
    /// unchanged.
    pub fn try_receive(&mut self) -> (r: Option<Message>)
        ensures
            match r {
                Option::None => old(self)@.len() == 0 && final(self)@ == old(self)@,
                Option::Some(m) => old(self)@.len() > 0 && m == old(self)@[0] && final(self)@
                    == old(self)@.drop_first(),
            },
    {
        if self.queue.len() == 0 {
            None
        } else {
            let m = self.queue.remove(0);
            proof {
                assert(self.queue@ =~= old(self)@.drop_first());
            }
            Some(m)
        }
    }
}

} // verus!
