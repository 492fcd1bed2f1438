//! The aggregated view of the time sources, and how events change it.

use crate::events::{EUdpEvents, Event};
use crate::server::{lemma_repeated_update, updated, Server};
use crate::server_state::ServerState;
use crate::timestamp::{wrap_signed, Timestamp};
use chrono::{TimeZone, Utc};
use vstd::prelude::*;
use vstd::string::StringExecFns;

verus! {

/// The kind of source that a subscription listens to.
#[derive(Debug, Copy, Clone, PartialEq, Eq, Structural)]
pub enum SourceKind {
    /// The GPS receiver.
    Gps,
    /// The upstream NTP servers.
    Ntp,
}

/// The last time from each source, the time currently taken as
/// authoritative, and the number of satellites in view.
#[derive(Debug, Copy, Clone, PartialEq, Eq, Structural)]
pub struct MonitorSender {
    pub last_ntp: Timestamp,
    pub last_gps: Timestamp,
    pub actial: Timestamp,
    pub satilite: u16,
}

/// What the display is sent: how long ago each source last reported, and
/// the time of day.
#[derive(Debug, PartialEq, Eq)]
pub struct OledPacket {
    pub gps: String,
    pub ntp: String,
    pub time: String,
}

/// A command to the real-time clock service, with the time it refers to.
#[derive(Debug, PartialEq, Eq)]
pub struct CmdPacket {
    pub cmd: String,
    pub ts: String,
}

/// The character of a decimal digit.
pub open spec fn digit(d: nat) -> char {
    ((48 + d) as u8) as char
}

/// A number in decimal, without sign or leading zeros.
pub open spec fn decimal(n: nat) -> Seq<char>
    decreases n,
{
    if n < 10 {
        seq![digit(n)]
    } else {
        decimal(n / 10).push(digit(n % 10))
    }
}

/// The date and time of day, in UTC, that `chrono` prints for the instant
/// `seconds` after 1970-01-01; `None` where the instant is outside the range
/// that `chrono::TimeZone::timestamp_opt` accepts.
pub uninterp spec fn utc_date_time(seconds: i64) -> Option<Seq<char>>;

/// `u64::to_string`: the number in decimal.
#[verifier::external_body]
fn decimal_text(n: u64) -> (text: String)
    ensures
        text@ == decimal(n as nat),
{
    n.to_string()
}

/// `chrono::TimeZone::timestamp_opt` on `Utc` with no nanoseconds, printed
/// by the `Display` of the `DateTime` it yields: the result is a function of
/// the seconds alone, named `utc_date_time`.
#[verifier::external_body]
fn utc_text(seconds: i64) -> (text: Option<String>)
    ensures
        utc_date_time(seconds) == match text {
            Some(t) => Some(t@),
            None => None,
        },
{
    match Utc.timestamp_opt(seconds, 0).single() {
        Some(instant) => Some(instant.to_string()),
        None => None,
    }
}

/// The text that tells an age in seconds.
pub open spec fn age_text(age: nat) -> Seq<char> {
    " "@ + decimal(age) + " sec ago"@
}

/// The time that an event from a source of the given kind makes
/// authoritative, if any: a GPS time from the GPS source, a remote time from
/// the NTP source.
pub open spec fn adopted_time(source: SourceKind, event: Event) -> Option<Timestamp> {
    match (source, event.event_type) {
        (SourceKind::Gps, EUdpEvents::NewGPSTimestamp(ts)) => Some(ts),
        (SourceKind::Ntp, EUdpEvents::NewRemoteTimestamp(ts)) => Some(ts),
        _ => None,
    }
}

/// The view after an event from a source of the given kind.
pub open spec fn reconciled(view: MonitorSender, source: SourceKind, event: Event) -> MonitorSender {
    match (source, event.event_type) {
        (SourceKind::Gps, EUdpEvents::NewGPSTimestamp(ts)) => MonitorSender {
            last_gps: ts,
            actial: ts,
            ..view
        },
        (SourceKind::Gps, EUdpEvents::NewGpsSky(count)) => MonitorSender { satilite: count, ..view },
        (SourceKind::Ntp, EUdpEvents::NewRemoteTimestamp(ts)) => MonitorSender {
            last_ntp: ts,
            actial: ts,
            ..view
        },
        _ => view,
    }
}

/// The advertised state after an event from a source of the given kind.
pub open spec fn advertised_after(state: ServerState, source: SourceKind, event: Event)
    -> ServerState {
    match adopted_time(source, event) {
        Some(ts) => updated(state, ts),
        None => state,
    }
}

impl MonitorSender {
    /// The view at startup: a placeholder time of one unit everywhere and no
    /// satellites.
    pub fn new() -> (view: MonitorSender)
        ensures
            view == (MonitorSender {
                last_ntp: Timestamp { ts: 1 },
                last_gps: Timestamp { ts: 1 },
                actial: Timestamp { ts: 1 },
                satilite: 0,
            }),
    {
        MonitorSender {
            last_ntp: Timestamp::new(1),
            last_gps: Timestamp::new(1),
            actial: Timestamp::new(1),
            satilite: 0,
        }
    }

    /// Whether the view can be shown: no source is ahead of the
    /// authoritative time, and that time has a date.
    pub open spec fn displayable(&self) -> bool {
        self.actial.ts >= self.last_gps.ts && self.actial.ts >= self.last_ntp.ts && utc_date_time(
            self.actial.ts as i64,
        ).is_some()
    }

    /// What the display is sent for this view, where it can be shown: the
    /// seconds since each source last reported and the authoritative time
    /// as a date, each after a space.
    pub fn oled_packet(&self) -> (packet: Option<OledPacket>)
        ensures
            packet.is_some() == self.displayable(),
            packet matches Some(p) ==> {
                &&& p.gps@ == age_text((self.actial.ts - self.last_gps.ts) as nat)
                &&& p.ntp@ == age_text((self.actial.ts - self.last_ntp.ts) as nat)
                &&& p.time@ == " "@ + utc_date_time(self.actial.ts as i64).unwrap()
            },
    {
        if self.actial.ts < self.last_gps.ts || self.actial.ts < self.last_ntp.ts {
            return None;
        }
        match utc_text(#[verifier::truncate] (self.actial.ts as i64)) {
            Some(date) => {
                let mut gps = String::from_str(" ");
                gps.append(decimal_text(self.actial.ts - self.last_gps.ts).as_str());
                gps.append(" sec ago");
                let mut ntp = String::from_str(" ");
                ntp.append(decimal_text(self.actial.ts - self.last_ntp.ts).as_str());
                ntp.append(" sec ago");
                let mut time = String::from_str(" ");
                time.append(date.as_str());
                Some(OledPacket { gps, ntp, time })
            },
            None => None,
        }
    }

    /// The command that asks the real-time clock to store the authoritative
    /// time.
    pub fn set_command(&self) -> (command: CmdPacket)
        ensures
            command.cmd@ == "set"@,
            command.ts@ == decimal(self.actial.ts as nat),
    {
        CmdPacket { cmd: String::from_str("set"), ts: decimal_text(self.actial.ts) }
    }

    /// The command that asks the real-time clock for its time.
    pub fn get_command(&self) -> (command: CmdPacket)
        ensures
            command.cmd@ == "get"@,
            command.ts@ == decimal(self.actial.ts as nat),
    {
        CmdPacket { cmd: String::from_str("get"), ts: decimal_text(self.actial.ts) }
    }

    /// The time that an event from a source of the given kind makes
    /// authoritative, if any.
    pub fn adopts(source: SourceKind, event: &Event) -> (time: Option<Timestamp>)
        ensures
            time == adopted_time(source, *event),
    {
        match source {
            SourceKind::Gps => match &event.event_type {
                EUdpEvents::NewGPSTimestamp(ts) => Some(*ts),
                _ => None,
            },
            SourceKind::Ntp => match &event.event_type {
                EUdpEvents::NewRemoteTimestamp(ts) => Some(*ts),
                _ => None,
            },
        }
    }

    /// Takes in one event from a source of the given kind. A time from that
    /// source becomes the authoritative one, is adopted by the server, and is
    /// returned for the real-time clock if `rtc_enabled`; a satellite count
    /// from the GPS source is recorded; anything else changes nothing.
    pub fn reconcile(
        &mut self,
        server: &mut Server,
        source: SourceKind,
        event: &Event,
        rtc_enabled: bool,
    ) -> (persist: Option<Timestamp>)
        requires
            adopted_time(source, *event).is_some() ==> old(server).state.dispersion.val < u32::MAX,
        ensures
            *final(self) == reconciled(*old(self), source, *event),
            final(server).state == advertised_after(old(server).state, source, *event),
            final(server).debug == old(server).debug,
            persist == if rtc_enabled {
                adopted_time(source, *event)
            } else {
                None
            },
    {
        match MonitorSender::adopts(source, event) {
            Some(ts) => {
                match source {
                    SourceKind::Gps => {
                        self.last_gps = ts;
                    },
                    SourceKind::Ntp => {
                        self.last_ntp = ts;
                    },
                }
                self.actial = ts;
                server.update_state(ts);
                if rtc_enabled {
                    Some(ts)
                } else {
                    None
                }
            },
            None => {
                match (source, &event.event_type) {
                    (SourceKind::Gps, EUdpEvents::NewGpsSky(count)) => {
                        self.satilite = *count;
                    },
                    _ => {},
                }
                None
            },
        }
    }
}

/// A time that a source reports twice in a row leaves the view as the first
/// report made it, with no distance between the authoritative time before
/// and after the second report.
pub proof fn lemma_repeated_time(view: MonitorSender, source: SourceKind, event: Event)
    requires
        adopted_time(source, event).is_some(),
    ensures
        reconciled(view, source, event).actial == adopted_time(source, event).unwrap(),
        reconciled(reconciled(view, source, event), source, event) == reconciled(
            view,
            source,
            event,
        ),
        wrap_signed(
            reconciled(view, source, event).actial.ts - reconciled(
                reconciled(view, source, event),
                source,
                event,
            ).actial.ts,
        ) == 0,
{
}

/// A time that a source reports twice in a row is the reference time that
/// the server advertises after each report, and each report raises the
/// dispersion by one, as long as the counter has room for both.
pub proof fn lemma_repeated_time_advertised(state: ServerState, source: SourceKind, event: Event)
    requires
        adopted_time(source, event).is_some(),
        state.dispersion.val + 2 <= u32::MAX,
    ensures
        advertised_after(state, source, event).ref_ts == adopted_time(source, event).unwrap(),
        advertised_after(advertised_after(state, source, event), source, event).ref_ts
            == adopted_time(source, event).unwrap(),
        advertised_after(state, source, event).dispersion.val == state.dispersion.val + 1,
        advertised_after(
            advertised_after(state, source, event),
            source,
            event,
        ).dispersion.val == state.dispersion.val + 2,
{
    lemma_repeated_update(state, adopted_time(source, event).unwrap());
}

/// A satellite count touches neither the times of the view nor the state
/// that the server advertises.
pub proof fn lemma_sky_changes_count_only(view: MonitorSender, state: ServerState, count: u16)
    ensures
        reconciled(
            view,
            SourceKind::Gps,
            Event { event_type: EUdpEvents::NewGpsSky(count) },
        ) == (MonitorSender { satilite: count, ..view }),
        advertised_after(
            state,
            SourceKind::Gps,
            Event { event_type: EUdpEvents::NewGpsSky(count) },
        ) == state,
{
}

} // verus!
