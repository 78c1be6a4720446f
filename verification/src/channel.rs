//! The engine's bounded channel, carried by a real FIFO transport.
//!
//! The transport is `may`'s multi-producer single-consumer queue; both
//! halves are held together, so the sending half always finds the receiving
//! half alive. The transport itself is unbounded and opaque; the bound, the
//! message accounting, and the shape of what is in flight — records first, a
//! single shutdown message last — are maintained and verified here, around
//! it.

use vstd::prelude::*;

use crate::record::Snapshot;
use crate::async_drain::AsyncError;
use crate::async_drain::AsyncResult;

verus! {

/// What travels through the channel to the consumer: one owned record
/// snapshot, or the shutdown message that ends the consumer loop.
#[derive(Debug)]
pub enum AsyncMsg {
    /// An owned record snapshot on its way to the sink.
    Record(Snapshot),
    /// Flush-then-stop: the consumer terminates when it takes this message.
    Finish,
}

#[verifier::external_type_specification]
#[verifier::external_body]
#[verifier::reject_recursive_types(T)]
/// The sending half of `may`'s mpsc queue, opaque to the verifier.
pub struct ExSender<T>(may::sync::mpsc::Sender<T>);

#[verifier::external_type_specification]
#[verifier::external_body]
#[verifier::reject_recursive_types(T)]
/// The receiving half of `may`'s mpsc queue, opaque to the verifier.
pub struct ExReceiver<T>(may::sync::mpsc::Receiver<T>);

/// The messages currently in flight in the transport whose receiving half
/// this is, oldest first.
pub uninterp spec fn transport_contents(rx: may::sync::mpsc::Receiver<AsyncMsg>) -> Seq<AsyncMsg>;

#[derive(Debug)]
/// Both halves of one `may` mpsc queue, held together: what `tx` accepts is
/// exactly what `rx` will hand out, in FIFO order, and `rx` being alive here
/// keeps `tx` connected.
pub struct RawChannel {
    /// The sending half.
    pub(crate) tx: may::sync::mpsc::Sender<AsyncMsg>,
    /// The receiving half; the in-flight messages are
    /// [`transport_contents`] of it.
    pub(crate) rx: may::sync::mpsc::Receiver<AsyncMsg>,
}

impl RawChannel {
    /// Relies on `may::sync::mpsc::channel`: a fresh queue pair holds
    /// nothing.
    #[verifier::external_body]
    pub(crate) fn new() -> (c: Self)
        ensures
            transport_contents(c.rx) == Seq::<AsyncMsg>::empty(),
    {
        let (tx, rx) = may::sync::mpsc::channel();
        RawChannel { tx, rx }
    }

    /// Relies on `may::sync::mpsc::Sender::send`: appends the message to the
    /// FIFO queue. It succeeds because the receiving half lives in this same
    /// pair.
    #[verifier::external_body]
    pub(crate) fn send(&mut self, m: AsyncMsg)
        ensures
            transport_contents(final(self).rx) == transport_contents(old(self).rx).push(m),
    {
        let _ = self.tx.send(m);
    }

    /// Relies on `may::sync::mpsc::Receiver::try_recv`: takes the oldest
    /// in-flight message, or nothing when the queue is empty; never blocks.
    #[verifier::external_body]
    pub(crate) fn try_recv(&mut self) -> (r: Option<AsyncMsg>)
        ensures
            transport_contents(old(self).rx).len() == 0 ==> {
                &&& r is None
                &&& *final(self) == *old(self)
            },
            transport_contents(old(self).rx).len() > 0 ==> {
                &&& r == Some(transport_contents(old(self).rx)[0])
                &&& transport_contents(final(self).rx) == transport_contents(
                    old(self).rx,
                ).drop_first()
            },
    {
        match self.rx.try_recv() {
            Ok(m) => Some(m),
            Err(_) => None,
        }
    }
}

/// The in-flight shape the engine maintains: every waiting record in
/// enqueue order, then the shutdown message if one was sent.
pub open spec fn transport_shape(queue: Seq<Snapshot>, fin: bool) -> Seq<AsyncMsg> {
    queue.map_values(|s: Snapshot| AsyncMsg::Record(s)) + if fin {
        seq![AsyncMsg::Finish]
    } else {
        Seq::<AsyncMsg>::empty()
    }
}

/// The engine's bounded channel: the raw transport plus the bound and the
/// accounting that make it a bounded queue of records with an optional
/// trailing shutdown message.
pub struct Channel {
    /// The raw FIFO transport. Its halves are inseparable: the pairing, and
    /// with it the meaning of [`transport_contents`], is this module's to
    /// maintain.
    pub raw: RawChannel,
    /// How many records are waiting; mirrors the ghost queue's length.
    pub pending: usize,
    /// The bound on how many records may wait at once; at least 1.
    pub cap: usize,
    /// Whether the shutdown message is in flight behind the records.
    pub fin: bool,
    /// The waiting records, front of the queue first.
    pub queue: Ghost<Seq<Snapshot>>,
}

impl Channel {
    /// Well-formed: a positive bound the queue respects, the mirror count
    /// accurate, and the transport holding exactly the queued records (in
    /// order) followed by the shutdown message if it was sent. The tie to
    /// the raw transport stays hidden with the transport itself.
    pub closed spec fn wf(self) -> bool {
        &&& 1 <= self.cap
        &&& self.queue@.len() <= self.cap
        &&& self.pending == self.queue@.len()
        &&& transport_contents(self.raw.rx) == transport_shape(self.queue@, self.fin)
    }

    /// An empty channel with capacity `cap`.
    pub fn new(cap: usize) -> (c: Self)
        requires
            cap >= 1,
        ensures
            c.queue@ == Seq::<Snapshot>::empty(),
            c.cap == cap,
            !c.fin,
            c.wf(),
    {
        let raw = RawChannel::new();
        let c = Channel { raw, pending: 0, cap, fin: false, queue: Ghost(Seq::empty()) };
        proof {
            assert(transport_shape(Seq::<Snapshot>::empty(), false) =~= Seq::<AsyncMsg>::empty());
        }
        c
    }

    /// A non-blocking enqueue: appends `s` when a slot is free, otherwise
    /// drops it and reports `Full`. Never waits.
    pub fn try_send(&mut self, s: Snapshot) -> (r: AsyncResult<()>)
        requires
            old(self).wf(),
            !old(self).fin,
        ensures
            final(self).wf(),
            final(self).cap == old(self).cap,
            !final(self).fin,
            old(self).queue@.len() < old(self).cap ==> {
                &&& r is Ok
                &&& final(self).queue@ == old(self).queue@.push(s)
            },
            old(self).queue@.len() >= old(self).cap ==> {
                &&& r == Err::<(), AsyncError>(AsyncError::Full)
                &&& final(self).queue@ == old(self).queue@
            },
    {
        if self.pending < self.cap {
            let ghost q = self.queue@;
            self.raw.send(AsyncMsg::Record(s));
            self.pending = self.pending + 1;
            proof {
                self.queue@ = q.push(s);
                assert(transport_shape(q, false).push(AsyncMsg::Record(s)) =~= transport_shape(
                    q.push(s),
                    false,
                ));
            }
            Ok(())
        } else {
            Err(AsyncError::Full)
        }
    }

    /// Sends the shutdown message: it queues behind every accepted record,
    /// so the consumer reaches it only after forwarding all of them.
    pub fn send_finish(&mut self)
        requires
            old(self).wf(),
            !old(self).fin,
        ensures
            final(self).wf(),
            final(self).cap == old(self).cap,
            final(self).fin,
            final(self).queue@ == old(self).queue@,
    {
        let ghost q = self.queue@;
        self.raw.send(AsyncMsg::Finish);
        self.fin = true;
        proof {
            assert(transport_shape(q, false).push(AsyncMsg::Finish) =~= transport_shape(q, true));
        }
    }

    /// Takes the oldest in-flight message, if any: the front record, or the
    /// shutdown message once no record remains.
    pub fn pop_msg(&mut self) -> (r: Option<AsyncMsg>)
        requires
            old(self).wf(),
        ensures
            final(self).wf(),
            final(self).cap == old(self).cap,
            old(self).queue@.len() > 0 ==> {
                &&& r == Some(AsyncMsg::Record(old(self).queue@[0]))
                &&& final(self).queue@ == old(self).queue@.drop_first()
                &&& final(self).fin == old(self).fin
            },
            old(self).queue@.len() == 0 && old(self).fin ==> {
                &&& r == Some(AsyncMsg::Finish)
                &&& final(self).queue@ == old(self).queue@
                &&& !final(self).fin
            },
            old(self).queue@.len() == 0 && !old(self).fin ==> {
                &&& r is None
                &&& *final(self) == *old(self)
            },
    {
        let ghost q = self.queue@;
        proof {
            if q.len() > 0 {
                assert(transport_shape(q, old(self).fin)[0] == AsyncMsg::Record(q[0]));
            } else if old(self).fin {
                assert(transport_shape(q, true)[0] == AsyncMsg::Finish);
            } else {
                assert(transport_shape(q, false).len() == 0);
            }
        }
        let r = self.raw.try_recv();
        match &r {
            Some(AsyncMsg::Record(_)) => {
                self.pending = self.pending - 1;
                proof {
                    self.queue@ = q.drop_first();
                    assert(transport_shape(q, old(self).fin).drop_first() =~= transport_shape(
                        q.drop_first(),
                        old(self).fin,
                    ));
                }
            },
            Some(AsyncMsg::Finish) => {
                self.fin = false;
                proof {
                    assert(transport_shape(q, true).drop_first() =~= transport_shape(q, false));
                }
            },
            None => {},
        }
        r
    }

    /// How many records are waiting for the consumer.
    pub fn len(&self) -> (n: usize)
        requires
            self.wf(),
        ensures
            n == self.queue@.len(),
    {
        self.pending
    }
}

} // verus!
