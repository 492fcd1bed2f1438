//! Events of the time sources and their fan-out to subscribers.

use crate::timestamp::Timestamp;
use tokio::sync::mpsc::{unbounded_channel, UnboundedReceiver, UnboundedSender};
use vstd::prelude::*;

verus! {

/// What a time source reports.
#[derive(Debug, PartialEq, Eq)]
pub enum EUdpEvents {
    /// Raw bytes.
    NewPackets(Vec<u8>),
    /// A time from the GPS receiver.
    NewGPSTimestamp(Timestamp),
    /// A time from an upstream NTP server.
    NewRemoteTimestamp(Timestamp),
    /// The number of satellites in view.
    NewGpsSky(u16),
}

/// One message on the bus.
#[derive(Debug, PartialEq, Eq)]
pub struct Event {
    pub event_type: EUdpEvents,
}

impl EUdpEvents {
    /// Whether two reports say the same: the same kind with the same time,
    /// count or bytes.
    pub open spec fn alike(self, other: EUdpEvents) -> bool {
        match (self, other) {
            (EUdpEvents::NewPackets(a), EUdpEvents::NewPackets(b)) => a@ == b@,
            (EUdpEvents::NewGPSTimestamp(a), EUdpEvents::NewGPSTimestamp(b)) => a == b,
            (EUdpEvents::NewRemoteTimestamp(a), EUdpEvents::NewRemoteTimestamp(b)) => a == b,
            (EUdpEvents::NewGpsSky(a), EUdpEvents::NewGpsSky(b)) => a == b,
            _ => false,
        }
    }
}

impl Clone for EUdpEvents {
    /// A copy that says the same.
    fn clone(&self) -> (copy: EUdpEvents)
        ensures
            copy.alike(*self),
    {
        match self {
            EUdpEvents::NewPackets(bytes) => EUdpEvents::NewPackets(bytes.clone()),
            EUdpEvents::NewGPSTimestamp(ts) => EUdpEvents::NewGPSTimestamp(*ts),
            EUdpEvents::NewRemoteTimestamp(ts) => EUdpEvents::NewRemoteTimestamp(*ts),
            EUdpEvents::NewGpsSky(count) => EUdpEvents::NewGpsSky(*count),
        }
    }
}

impl Clone for Event {
    /// A copy that says the same.
    fn clone(&self) -> (copy: Event)
        ensures
            copy.event_type.alike(self.event_type),
    {
        Event { event_type: self.event_type.clone() }
    }
}

/// `tokio::sync::mpsc::UnboundedSender`: the sending half of an unbounded
/// channel. Nothing inside it is visible here.
#[verifier::external_type_specification]
#[verifier::external_body]
#[verifier::reject_recursive_types(T)]
pub struct ExUnboundedSender<T>(UnboundedSender<T>);

/// `tokio::sync::mpsc::UnboundedReceiver`: the receiving half of an
/// unbounded channel. Nothing inside it is visible here.
#[verifier::external_type_specification]
#[verifier::external_body]
#[verifier::reject_recursive_types(T)]
pub struct ExUnboundedReceiver<T>(UnboundedReceiver<T>);

/// `tokio::sync::mpsc::unbounded_channel`: a new channel, as its two halves.
#[verifier::external_body]
fn open_channel() -> (UnboundedSender<Event>, UnboundedReceiver<Event>) {
    unbounded_channel()
}

/// `UnboundedSender::send`: hands `event` to the channel without blocking.
/// The result tells whether the channel took it; it does not once the
/// receiving half is closed or gone, which nothing here can foresee.
#[verifier::external_body]
fn deliver(subscriber: &UnboundedSender<Event>, event: Event) -> bool {
    subscriber.send(event).is_ok()
}

/// The items of `all` that `keep` marks, in the order in which `all` holds
/// them.
pub open spec fn retained<T>(all: Seq<T>, keep: Seq<bool>) -> Seq<T>
    recommends
        keep.len() == all.len(),
    decreases all.len(),
{
    if all.len() == 0 {
        Seq::empty()
    } else if keep.last() {
        retained(all.drop_last(), keep.drop_last()).push(all.last())
    } else {
        retained(all.drop_last(), keep.drop_last())
    }
}

/// The subscribers of one source, each with a channel of its own.
#[derive(Debug, Clone)]
pub struct EventManager {
    subscribers: Vec<UnboundedSender<Event>>,
}

impl EventManager {
    /// The sending halves of the registered channels, in the order of
    /// registration.
    pub closed spec fn channels(&self) -> Seq<UnboundedSender<Event>> {
        self.subscribers@
    }

    /// The number of channels that are registered.
    pub open spec fn subscriber_count(&self) -> nat {
        self.channels().len()
    }

    /// A bus without subscribers.
    pub fn new() -> (bus: EventManager)
        ensures
            bus.subscriber_count() == 0,
    {
        EventManager { subscribers: Vec::new() }
    }

    /// The number of channels that are registered.
    pub fn subscribers(&self) -> (count: usize)
        ensures
            count == self.subscriber_count(),
    {
        self.subscribers.len()
    }

    /// Registers a new channel, behind those already registered, and returns
    /// its receiving half.
    pub fn subscribe(&mut self) -> (receiver: UnboundedReceiver<Event>)
        ensures
            final(self).subscriber_count() == old(self).subscriber_count() + 1,
            final(self).channels().drop_last() == old(self).channels(),
    {
        let (sender, receiver) = open_channel();
        self.subscribers.push(sender);
        assert(self.subscribers@.drop_last() =~= old(self).subscribers@);
        receiver
    }

    /// Records the answer of the channel at position `at` to an offer: a
    /// channel that accepted stays and the next position follows it; a
    /// channel that refused leaves the registry, and the channel behind it
    /// moves to its position.
    pub fn settle(&mut self, at: usize, accepted: bool) -> (next: usize)
        requires
            at < old(self).subscriber_count(),
        ensures
            accepted ==> final(self).channels() == old(self).channels() && next == at + 1,
            !accepted ==> final(self).channels() == old(self).channels().remove(at as int)
                && next == at,
    {
        let count = self.subscribers.len();
        if accepted {
            assert(at < count);
            at + 1
        } else {
            let _ = self.subscribers.remove(at);
            at
        }
    }

    /// Offers a copy of `event` to every registered channel, in the order
    /// of registration. A channel that refuses leaves the registry; the
    /// others are still served and stay registered in their order. Returns
    /// how many channels took the event, which is how many stay registered.
    pub fn notify(&mut self, event: Event) -> (delivered: usize)
        ensures
            delivered == final(self).subscriber_count(),
            final(self).subscriber_count() <= old(self).subscriber_count(),
            exists|keep: Seq<bool>|
                keep.len() == old(self).channels().len() && final(self).channels() == #[trigger] retained(
                    old(self).channels(),
                    keep,
                ),
    {
        let ghost before = self.channels();
        let ghost mut keep: Seq<bool> = Seq::empty();
        let mut i: usize = 0;
        while i < self.subscribers.len()
            invariant
                i <= self.channels().len(),
                i <= keep.len() <= before.len(),
                self.channels().len() - i == before.len() - keep.len(),
                self.channels().subrange(0, i as int) == retained(
                    before.subrange(0, keep.len() as int),
                    keep,
                ),
                self.channels().subrange(i as int, self.channels().len() as int)
                    == before.subrange(keep.len() as int, before.len() as int),
            decreases self.channels().len() - i,
        {
            let ghost seen = keep.len() as int;
            let ghost marks = keep;
            let ghost now = self.channels();
            let accepted = deliver(&self.subscribers[i], event.clone());
            let next = self.settle(i, accepted);
            proof {
                let tail = now.subrange(i as int, now.len() as int);
                assert(tail[0] == now[i as int]);
                assert(now[i as int] == before[seen]);
                keep = keep.push(accepted);
                let front = before.subrange(0, seen + 1);
                assert(front.drop_last() =~= before.subrange(0, seen));
                assert(keep.drop_last() =~= marks);
                assert(front.last() == before[seen]);
                assert(retained(front, keep) == if accepted {
                    retained(before.subrange(0, seen), marks).push(before[seen])
                } else {
                    retained(before.subrange(0, seen), marks)
                });
                if accepted {
                    assert(self.channels().subrange(0, next as int) =~= now.subrange(
                        0,
                        i as int,
                    ).push(now[i as int]));
                } else {
                    assert(self.channels().subrange(0, next as int) =~= now.subrange(0, i as int));
                }
                assert(self.channels().subrange(next as int, self.channels().len() as int)
                    =~= tail.drop_first());
                assert(before.subrange(seen + 1, before.len() as int) =~= before.subrange(
                    seen,
                    before.len() as int,
                ).drop_first());
            }
            i = next;
        }
        proof {
            assert(self.channels().subrange(0, i as int) =~= self.channels());
            assert(before.subrange(0, keep.len() as int) =~= before);
        }
        i
    }
}

} // verus!
