//! A bounded producer/consumer queue with cooperative shutdown.
//!
//! One producer emits sequentially numbered messages into a fixed-capacity
//! first-in-first-out queue; a broadcast boolean signal, observed once per
//! iteration, asks it to stop. On a true signal the producer releases its
//! sending handle and sends nothing more. The consumer takes messages until
//! the queue is empty and the handle has been released, at which point its
//! loop ends.
//!
//! `Producer::step` is the producer's per-iteration decision; `Session`
//! models a whole run — queue contents, handle state, and ghost logs of what
//! was sent and received — and the proofs over it state the ordering and
//! shutdown guarantees of the pattern.

use vstd::prelude::*;
use crate::messages::message_text;
use crate::messages::format_message;

verus! {

/// The producer's loop state: the index of the next message, and whether a
/// true shutdown signal has been observed.
pub struct Producer {
    pub next_index: u64,
    pub stopped: bool,
}

/// What one producer iteration decides to do: enqueue a message, or release
/// the sending handle and exit the loop.
pub enum ProducerAction {
    Send(String),
    Exit,
}

impl Producer {
    /// A producer that has sent nothing and has seen no shutdown signal.
    pub fn new() -> (p: Producer)
        ensures
            p.next_index == 0,
            !p.stopped,
    {
        Producer { next_index: 0, stopped: false }
    }

    /// One iteration of the producer loop: observe the shutdown signal; on
    /// true, stop for good without sending; otherwise emit the message for
    /// the current index and advance.
    pub fn step(&mut self, stop_requested: bool) -> (action: ProducerAction)
        requires
            !old(self).stopped,
            !stop_requested ==> old(self).next_index < u64::MAX,
        ensures
            stop_requested ==> {
                &&& action is Exit
                &&& final(self).stopped
                &&& final(self).next_index == old(self).next_index
            },
            !stop_requested ==> {
                &&& action matches ProducerAction::Send(m) && m@ == message_text(
                    old(self).next_index as nat,
                )
                &&& !final(self).stopped
                &&& final(self).next_index == old(self).next_index + 1
            },
    {
        if stop_requested {
            self.stopped = true;
            ProducerAction::Exit
        } else {
            let msg = format_message(self.next_index);
            self.next_index = self.next_index + 1;
            ProducerAction::Send(msg)
        }
    }
}

/// A whole producer/consumer run: the producer, the bounded queue between
/// the two tasks, whether the sending handle is still held, and ghost logs
/// of every message sent and every message received so far.
pub struct Session {
    pub producer: Producer,
    pub queue: Vec<String>,
    pub capacity: usize,
    pub sender_open: bool,
    pub sent: Ghost<Seq<Seq<char>>>,
    pub received: Ghost<Seq<Seq<char>>>,
}

impl Session {
    /// The texts currently queued, oldest first.
    pub open spec fn queue_views(self) -> Seq<Seq<char>> {
        self.queue@.map_values(|m: String| m@)
    }

    /// Well-formedness: everything sent carries consecutive indices from
    /// zero; what was received followed by what is still queued is exactly
    /// what was sent; the handle is held iff the producer has not stopped;
    /// and the queue respects its capacity.
    pub open spec fn wf(self) -> bool {
        &&& self.sent@ == Seq::new(
            self.producer.next_index as nat,
            |k: int| message_text(k as nat),
        )
        &&& self.received@ + self.queue_views() == self.sent@
        &&& self.sender_open == !self.producer.stopped
        &&& self.queue@.len() <= self.capacity
        &&& self.capacity >= 1
    }

    /// A fresh run: nothing sent, nothing queued, nothing received, the
    /// sending handle held.
    pub fn new(capacity: usize) -> (s: Session)
        requires
            capacity >= 1,
        ensures
            s.wf(),
            s.capacity == capacity,
            s.producer.next_index == 0,
            s.sender_open,
            s.queue@.len() == 0,
            s.sent@.len() == 0,
            s.received@.len() == 0,
    {
        let s = Session {
            producer: Producer::new(),
            queue: Vec::new(),
            capacity,
            sender_open: true,
            sent: Ghost(Seq::empty()),
            received: Ghost(Seq::empty()),
        };
        proof {
            assert(s.sent@ =~= Seq::new(0nat, |k: int| message_text(k as nat)));
            assert(s.received@ + s.queue_views() =~= s.sent@);
        }
        s
    }

    /// One observation of the shutdown signal by the producer. On a false
    /// signal the next numbered message joins the queue; on a true signal
    /// the sending handle is released and — now or on any later tick —
    /// nothing more is ever sent.
    pub fn producer_tick(&mut self, stop_requested: bool)
        requires
            old(self).wf(),
            !old(self).producer.stopped && !stop_requested ==> old(self).producer.next_index
                < u64::MAX && old(self).queue@.len() < old(self).capacity,
        ensures
            final(self).wf(),
            final(self).capacity == old(self).capacity,
            final(self).received@ == old(self).received@,
            old(self).producer.stopped ==> *final(self) == *old(self),
            !old(self).producer.stopped && stop_requested ==> {
                &&& final(self).sent@ == old(self).sent@
                &&& final(self).queue@ == old(self).queue@
                &&& final(self).producer.stopped
                &&& !final(self).sender_open
                &&& final(self).producer.next_index == old(self).producer.next_index
            },
            !old(self).producer.stopped && !stop_requested ==> {
                &&& final(self).sent@ == old(self).sent@.push(
                    message_text(old(self).producer.next_index as nat),
                )
                &&& final(self).queue_views() == old(self).queue_views().push(
                    message_text(old(self).producer.next_index as nat),
                )
                &&& final(self).sender_open
                &&& final(self).producer.next_index == old(self).producer.next_index + 1
            },
    {
        if self.producer.stopped {
            return;
        }
        let action = self.producer.step(stop_requested);
        match action {
            ProducerAction::Exit => {
                self.sender_open = false;
            },
            ProducerAction::Send(msg) => {
                let ghost text = msg@;
                self.queue.push(msg);
                self.sent = Ghost(self.sent@.push(text));
                proof {
                    assert(self.sent@ =~= Seq::new(
                        self.producer.next_index as nat,
                        |k: int| message_text(k as nat),
                    ));
                    assert(self.queue_views() =~= old(self).queue_views().push(text));
                    assert(self.received@ + self.queue_views() =~= self.sent@);
                }
            },
        }
    }

    /// One receive by the consumer: the oldest queued message, or `None`
    /// exactly when the queue is empty and the sending handle has been
    /// released — the moment the consumer's loop ends. The message handed
    /// out is always the next one in send order, with no gap. An empty queue
    /// whose handle is still held is the consumer's suspension point — the
    /// receive does not return there — so that case is outside this call's
    /// precondition.
    pub fn consumer_tick(&mut self) -> (received: Option<String>)
        requires
            old(self).wf(),
            old(self).queue@.len() > 0 || !old(self).sender_open,
        ensures
            final(self).wf(),
            final(self).capacity == old(self).capacity,
            final(self).sent@ == old(self).sent@,
            final(self).producer == old(self).producer,
            final(self).sender_open == old(self).sender_open,
            match received {
                Some(m) => {
                    &&& old(self).queue@.len() > 0
                    &&& m@ == old(self).queue_views()[0]
                    &&& m@ == message_text(old(self).received@.len() as nat)
                    &&& final(self).queue_views() == old(self).queue_views().drop_first()
                    &&& final(self).received@ == old(self).received@.push(m@)
                },
                None => {
                    &&& old(self).queue@.len() == 0
                    &&& !old(self).sender_open
                    &&& *final(self) == *old(self)
                },
            },
    {
        if self.queue.len() > 0 {
            let msg = self.queue.remove(0);
            self.received = Ghost(self.received@.push(msg@));
            proof {
                let ghost i = old(self).received@.len() as int;
                assert((old(self).received@ + old(self).queue_views()).len() == old(
                    self,
                ).received@.len() + old(self).queue_views().len());
                assert(0 <= i < old(self).sent@.len());
                assert((old(self).received@ + old(self).queue_views())[i] == old(
                    self,
                ).queue_views()[0]);
                assert(old(self).sent@[i] == message_text(old(self).received@.len() as nat));
                assert(msg@ == old(self).queue_views()[0]);
                assert(self.queue_views() =~= old(self).queue_views().drop_first());
                assert(self.received@ + self.queue_views() =~= self.sent@);
            }
            Some(msg)
        } else {
            None
        }
    }

    /// Receives until the queue is empty, once the sending handle has been
    /// released, returning the drained messages oldest first. The loop ends:
    /// each receive shortens the queue, and after the last one the next
    /// receive would yield `None`.
    pub fn drain(&mut self) -> (msgs: Vec<String>)
        requires
            old(self).wf(),
            !old(self).sender_open,
        ensures
            final(self).wf(),
            final(self).capacity == old(self).capacity,
            final(self).sent@ == old(self).sent@,
            final(self).producer == old(self).producer,
            !final(self).sender_open,
            final(self).queue@.len() == 0,
            msgs@.map_values(|m: String| m@) == old(self).queue_views(),
            final(self).received@ == old(self).received@ + msgs@.map_values(|m: String| m@),
            final(self).received@ == final(self).sent@,
    {
        let mut msgs: Vec<String> = Vec::new();
        proof {
            assert(msgs@.map_values(|m: String| m@) =~= Seq::<Seq<char>>::empty());
        }
        loop
            invariant
                self.wf(),
                !self.sender_open,
                self.capacity == old(self).capacity,
                self.sent@ == old(self).sent@,
                self.producer == old(self).producer,
                old(self).queue_views() == msgs@.map_values(|m: String| m@)
                    + self.queue_views(),
                self.received@ == old(self).received@ + msgs@.map_values(|m: String| m@),
            ensures
                self.queue@.len() == 0,
                self.wf(),
                !self.sender_open,
                self.capacity == old(self).capacity,
                self.sent@ == old(self).sent@,
                self.producer == old(self).producer,
                old(self).queue_views() == msgs@.map_values(|m: String| m@),
                self.received@ == old(self).received@ + msgs@.map_values(|m: String| m@),
            decreases self.queue@.len(),
        {
            let ghost msgs_before = msgs@;
            match self.consumer_tick() {
                Some(m) => {
                    let ghost text = m@;
                    msgs.push(m);
                    proof {
                        assert(msgs@.map_values(|m: String| m@) =~= msgs_before.map_values(
                            |m: String| m@,
                        ).push(text));
                        assert(old(self).queue_views() =~= msgs@.map_values(|m: String| m@)
                            + self.queue_views());
                    }
                },
                None => {
                    proof {
                        assert(old(self).queue_views() =~= msgs@.map_values(|m: String| m@));
                    }
                    break;
                },
            }
        }
        proof {
            assert(self.received@ =~= self.sent@);
        }
        msgs
    }
}

/// Law: the consumer receives messages strictly in the order the producer
/// sent them. In every well-formed run, whatever the number of ticks, what
/// has been received is exactly the first part of what was sent — a prefix
/// with no gaps and no reordering — and the message at position `k` carries
/// index `k`.
pub proof fn lemma_receive_order(s: Session)
    requires
        s.wf(),
    ensures
        s.received@.len() <= s.sent@.len(),
        s.received@ == s.sent@.take(s.received@.len() as int),
        forall|k: int| 0 <= k < s.received@.len() ==> s.received@[k] == message_text(k as nat),
{
    assert(s.received@ =~= s.sent@.take(s.received@.len() as int));
    assert forall|k: int| 0 <= k < s.received@.len() implies s.received@[k] == message_text(
        k as nat,
    ) by {
        assert(s.received@[k] == s.sent@[k]);
    }
}

} // verus!
