//! The server side: the shared state that is advertised, and the decisions
//! of a worker that answers requests from a cached copy of it.

use crate::frac_value::FracValue;
use crate::packet::Packet;
use crate::server_state::ServerState;
use crate::timestamp::{wrap_signed, Timestamp};
use serde_json::Value;
use vstd::prelude::*;
use vstd::string::StringExecFns;

verus! {

/// The longest time a worker keeps its copy of the shared state, in units of
/// 2^-32 s: the largest whole number of units that is not more than 0.1 s.
pub const FRESH_FOR: i64 = 429496729;

/// The state that a server starts with: everything zero.
pub open spec fn initial_state() -> ServerState {
    ServerState {
        leap: 0,
        stratum: 0,
        precision: 0,
        ref_id: 0,
        ref_ts: Timestamp { ts: 0 },
        dispersion: FracValue { val: 0 },
        delay: FracValue { val: 0 },
    }
}

/// The state after a new reference time was adopted: the reference timestamp
/// is the new one and the dispersion is one higher.
pub open spec fn updated(state: ServerState, timestamp: Timestamp) -> ServerState {
    ServerState {
        ref_ts: timestamp,
        dispersion: FracValue { val: (state.dispersion.val + 1) as u32 },
        ..state
    }
}

/// Whether a time distance, in units of 2^-32 s, is more than a tenth of a
/// second in either direction.
pub open spec fn exceeds_tenth(delta: int) -> bool {
    10 * delta > 0x1_0000_0000 || 10 * delta < -0x1_0000_0000
}

/// The unsigned number under `key` in the JSON object that
/// `serde_json::from_str` reads in `text`; `None` where the text is no JSON,
/// no object, or holds no such number under that key.
pub uninterp spec fn json_u64(text: Seq<char>, key: Seq<char>) -> Option<u64>;

/// `serde_json::from_str` into a `serde_json::Value`, then `Value::get`
/// with `key` and `Value::as_u64`: the result is a function of the text and
/// the key alone, named `json_u64`.
#[verifier::external_body]
fn json_number(text: &str, key: &str) -> (number: Option<u64>)
    ensures
        number == json_u64(text@, key@),
{
    match serde_json::from_str::<Value>(text) {
        Ok(document) => match document.get(key) {
            Some(entry) => entry.as_u64(),
            None => None,
        },
        Err(_) => None,
    }
}

/// The time that a reply of the real-time clock service carries, if it
/// carries one that counts: zero stands for no time.
pub open spec fn restored_time(timestamp: Option<u64>) -> Option<Timestamp> {
    match timestamp {
        Some(ts) if ts != 0 => Some(Timestamp { ts }),
        _ => None,
    }
}

/// The state that the server advertises, which its workers share.
#[derive(Debug, Copy, Clone, PartialEq, Eq, Structural)]
pub struct Server {
    pub state: ServerState,
    pub debug: bool,
}

impl Server {
    /// A server that advertises the all-zero state.
    pub fn new(debug: bool) -> (server: Server)
        ensures
            server.state == initial_state(),
            server.debug == debug,
    {
        Server {
            state: ServerState {
                leap: 0,
                stratum: 0,
                precision: 0,
                ref_id: 0,
                ref_ts: Timestamp::zero(),
                dispersion: FracValue::zero(),
                delay: FracValue::zero(),
            },
            debug,
        }
    }

    /// The socket address on which the server listens at the local address
    /// `host`: that address, a colon, and the NTP port.
    pub fn bind_target(host: &str) -> (target: String)
        ensures
            target@ == host@ + ":123"@,
    {
        let mut target = String::from_str(host);
        target.append(":123");
        target
    }

    /// Adopts `timestamp` as the reference time and raises the dispersion by
    /// one. The dispersion must not already be the largest value.
    pub fn update_state(&mut self, timestamp: Timestamp)
        requires
            old(self).state.dispersion.val < u32::MAX,
        ensures
            final(self).state == updated(old(self).state, timestamp),
            final(self).state.ref_ts == timestamp,
            final(self).state.dispersion.val == old(self).state.dispersion.val + 1,
            final(self).debug == old(self).debug,
    {
        self.state.ref_ts = timestamp;
        self.state.dispersion.increment();
    }

    /// Adopts the time that the real-time clock service returned, if it
    /// returned one: zero, or nothing, stands for no time. Tells whether a
    /// time was adopted.
    pub fn restore(&mut self, timestamp: Option<u64>) -> (adopted: bool)
        requires
            restored_time(timestamp).is_some() ==> old(self).state.dispersion.val < u32::MAX,
        ensures
            adopted == restored_time(timestamp).is_some(),
            final(self).state == match restored_time(timestamp) {
                Some(ts) => updated(old(self).state, ts),
                None => old(self).state,
            },
            final(self).debug == old(self).debug,
    {
        match timestamp {
            Some(ts) => {
                if ts != 0 {
                    self.update_state(Timestamp::new(ts));
                    true
                } else {
                    false
                }
            },
            None => false,
        }
    }

    /// Adopts the time in a reply of the real-time clock service: the
    /// number under the key `timestamp` of the JSON object, unless it is
    /// zero. A reply without such a number changes nothing.
    pub fn restore_from_reply(&mut self, reply: &str) -> (adopted: bool)
        requires
            old(self).state.dispersion.val < u32::MAX,
        ensures
            adopted == restored_time(json_u64(reply@, "timestamp"@)).is_some(),
            final(self).state == match restored_time(json_u64(reply@, "timestamp"@)) {
                Some(ts) => updated(old(self).state, ts),
                None => old(self).state,
            },
            final(self).debug == old(self).debug,
    {
        let timestamp = json_number(reply, "timestamp");
        self.restore(timestamp)
    }
}

/// One worker of the server: its copy of the shared state and the receipt
/// time of the request at which it last took that copy.
#[derive(Debug, Copy, Clone, PartialEq, Eq, Structural)]
pub struct Worker {
    pub cached_state: ServerState,
    pub last_update: Timestamp,
}

impl Worker {
    /// Whether the worker's copy is stale for `request`: more than 0.1 s lie
    /// between the request's receipt and the last refresh.
    pub open spec fn stale_for(&self, request: &Packet) -> bool {
        exceeds_tenth(wrap_signed(request.local_ts.ts - self.last_update.ts))
    }

    /// The worker after it has seen `request` while the shared state was
    /// `shared`: refreshed if its copy was stale, unchanged otherwise.
    pub open spec fn after(&self, request: &Packet, shared: ServerState) -> Worker {
        if self.stale_for(request) {
            Worker { cached_state: shared, last_update: request.local_ts }
        } else {
            *self
        }
    }

    /// A worker that took its copy of the state at time `now`.
    pub fn new(state: ServerState, now: Timestamp) -> (worker: Worker)
        ensures
            worker.cached_state == state,
            worker.last_update == now,
    {
        Worker { cached_state: state, last_update: now }
    }

    /// Whether the copy must be refreshed before `request` is answered.
    pub fn needs_refresh(&self, request: &Packet) -> (stale: bool)
        ensures
            stale == self.stale_for(request),
    {
        let delta: i64 = request.local_ts.diff_to_sec(&self.last_update);
        delta > FRESH_FOR || delta < -FRESH_FOR
    }

    /// Takes a new copy of the shared state on behalf of `request`.
    pub fn refresh(&mut self, shared: &ServerState, request: &Packet)
        ensures
            final(self).cached_state == *shared,
            final(self).last_update == request.local_ts,
    {
        self.cached_state = *shared;
        self.last_update = request.local_ts;
    }

    /// The reply to `request` at time `now`, from the worker's copy of the
    /// state: none unless the message is a request.
    pub fn respond_at(&self, request: &Packet, now: Timestamp) -> (reply: Option<Packet>)
        ensures
            reply == request.response(self.cached_state, now),
    {
        request.make_response_at(&self.cached_state, now)
    }

    /// Handles one received message while the shared state is `shared`:
    /// refreshes the copy if it is stale, then answers from the copy.
    pub fn serve_at(&mut self, request: &Packet, shared: &ServerState, now: Timestamp) -> (reply:
        Option<Packet>)
        ensures
            *final(self) == old(self).after(request, *shared),
            reply == request.response(final(self).cached_state, now),
            !old(self).stale_for(request) ==> reply == request.response(
                old(self).cached_state,
                now,
            ),
            old(self).stale_for(request) ==> reply == request.response(*shared, now),
    {
        if self.needs_refresh(request) {
            self.refresh(shared, request);
        }
        self.respond_at(request, now)
    }
}

/// Adopting the same time twice leaves the reference time where the first
/// adoption put it, at no distance from itself, and raises the dispersion
/// by one each time, as long as the counter has room for both.
pub proof fn lemma_repeated_update(state: ServerState, timestamp: Timestamp)
    requires
        state.dispersion.val + 2 <= u32::MAX,
    ensures
        updated(state, timestamp).ref_ts == timestamp,
        updated(updated(state, timestamp), timestamp).ref_ts == timestamp,
        wrap_signed(
            updated(state, timestamp).ref_ts.ts - updated(
                updated(state, timestamp),
                timestamp,
            ).ref_ts.ts,
        ) == 0,
        updated(state, timestamp).dispersion.val == state.dispersion.val + 1,
        updated(updated(state, timestamp), timestamp).dispersion.val == state.dispersion.val + 2,
{
}

} // verus!
