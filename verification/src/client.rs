//! The polling order of the upstream NTP client.
//!
//! A cycle tries the configured addresses in order and ends at the first
//! answer. The queries themselves are made by the caller; this module
//! decides what to do next.

use crate::events::{EUdpEvents, Event};
use crate::timestamp::Timestamp;
use vstd::prelude::*;

verus! {

/// What the caller reports to the poller.
#[derive(Debug, Copy, Clone, PartialEq, Eq, Structural)]
pub enum PollEvent {
    /// A new cycle begins.
    CycleStart,
    /// The outstanding query ended: with the seconds that the server
    /// returned, or without a valid answer.
    Answer(Option<u32>),
}

/// What the caller is to do next.
#[derive(Debug, PartialEq, Eq)]
pub enum PollAction {
    /// Query the address at this index of the list.
    Query(usize),
    /// Publish this event, then wait for the next cycle.
    Publish(Event),
    /// Publish nothing and wait for the next cycle.
    Rest,
}

/// The event that announces the time `seconds` of an upstream server.
pub open spec fn remote_event(seconds: u32) -> Event {
    Event { event_type: EUdpEvents::NewRemoteTimestamp(Timestamp { ts: seconds as u64 }) }
}

/// The index of the outstanding query after an event, given the index
/// before it.
pub open spec fn poll_position(current: usize, servers: usize, event: PollEvent) -> usize {
    match event {
        PollEvent::CycleStart => 0,
        PollEvent::Answer(Some(_)) => current,
        PollEvent::Answer(None) => if current + 1 < servers {
            (current + 1) as usize
        } else {
            current
        },
    }
}

/// The next action after an event, for a list of `servers` addresses of
/// which the one at `current` was queried last.
pub open spec fn poll_action(current: usize, servers: usize, event: PollEvent) -> PollAction {
    match event {
        PollEvent::CycleStart => if servers > 0 {
            PollAction::Query(0)
        } else {
            PollAction::Rest
        },
        PollEvent::Answer(Some(seconds)) => PollAction::Publish(remote_event(seconds)),
        PollEvent::Answer(None) => if current + 1 < servers {
            PollAction::Query((current + 1) as usize)
        } else {
            PollAction::Rest
        },
    }
}

/// The first answer in a list of outcomes, one per address.
pub open spec fn first_answer(outcomes: Seq<Option<u32>>) -> Option<u32>
    decreases outcomes.len(),
{
    if outcomes.len() == 0 {
        None
    } else if outcomes[0].is_some() {
        outcomes[0]
    } else {
        first_answer(outcomes.drop_first())
    }
}

/// The action that ends a cycle in which the address at `current` is
/// queried next and the address at `i` yields `outcomes[i]`.
pub open spec fn cycle_end(outcomes: Seq<Option<u32>>, current: usize) -> PollAction
    decreases outcomes.len() - current,
{
    if current >= outcomes.len() {
        PollAction::Rest
    } else {
        let event = PollEvent::Answer(outcomes[current as int]);
        match poll_action(current, outcomes.len() as usize, event) {
            PollAction::Query(_) => cycle_end(
                outcomes,
                poll_position(current, outcomes.len() as usize, event),
            ),
            other => other,
        }
    }
}

/// The progress of the client through one cycle.
#[derive(Debug, Copy, Clone, PartialEq, Eq, Structural)]
pub struct Poller {
    /// The index of the address that was queried last in this cycle.
    pub current: usize,
}

impl Poller {
    /// A poller before its first cycle.
    pub fn new() -> (poller: Poller)
        ensures
            poller.current == 0,
    {
        Poller { current: 0 }
    }

    /// The event that announces the time `seconds` of an upstream server.
    pub fn remote_timestamp(seconds: u32) -> (event: Event)
        ensures
            event == remote_event(seconds),
    {
        Event { event_type: EUdpEvents::NewRemoteTimestamp(Timestamp::new(seconds as u64)) }
    }

    /// Takes in an event and decides the next action, for a list that holds
    /// `servers` addresses in this cycle.
    pub fn next(&mut self, servers: usize, event: PollEvent) -> (action: PollAction)
        ensures
            action == poll_action(old(self).current, servers, event),
            final(self).current == poll_position(old(self).current, servers, event),
    {
        match event {
            PollEvent::CycleStart => {
                self.current = 0;
                if servers > 0 {
                    PollAction::Query(0)
                } else {
                    PollAction::Rest
                }
            },
            PollEvent::Answer(Some(seconds)) => PollAction::Publish(
                Poller::remote_timestamp(seconds),
            ),
            PollEvent::Answer(None) => {
                if servers > 0 && self.current < servers - 1 {
                    self.current = self.current + 1;
                    PollAction::Query(self.current)
                } else {
                    PollAction::Rest
                }
            },
        }
    }
}

/// A cycle ends with the first answer in the order of the list, and
/// without an event where no address answers.
pub proof fn lemma_cycle_takes_first_answer(outcomes: Seq<Option<u32>>)
    requires
        outcomes.len() <= usize::MAX,
    ensures
        cycle_end(outcomes, 0) == match first_answer(outcomes) {
            Some(seconds) => PollAction::Publish(remote_event(seconds)),
            None => PollAction::Rest,
        },
{
    lemma_cycle_from(outcomes, 0);
    assert(outcomes.subrange(0, outcomes.len() as int) =~= outcomes);
}

/// From any position, a cycle ends with the first answer among the
/// addresses that are still to be tried.
proof fn lemma_cycle_from(outcomes: Seq<Option<u32>>, current: usize)
    requires
        outcomes.len() <= usize::MAX,
        current <= outcomes.len(),
    ensures
        cycle_end(outcomes, current) == match first_answer(
            outcomes.subrange(current as int, outcomes.len() as int),
        ) {
            Some(seconds) => PollAction::Publish(remote_event(seconds)),
            None => PollAction::Rest,
        },
    decreases outcomes.len() - current,
{
    let rest = outcomes.subrange(current as int, outcomes.len() as int);
    if current < outcomes.len() {
        assert(rest[0] == outcomes[current as int]);
        if outcomes[current as int].is_none() {
            let following = (current + 1) as usize;
            assert(rest.drop_first() =~= outcomes.subrange(
                following as int,
                outcomes.len() as int,
            ));
            lemma_cycle_from(outcomes, following);
        }
    }
}

} // verus!
