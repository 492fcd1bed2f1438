//! The rules by which reports of the GPS daemon become events.

use crate::events::{EUdpEvents, Event};
use crate::timestamp::Timestamp;
use chrono::DateTime;
use gpsd_proto::UnifiedResponse;
use vstd::prelude::*;

verus! {

/// The command that asks the daemon to stream its reports as JSON; it is
/// sent once, right after connecting.
pub const WATCH_COMMAND: &'static str =
    "?WATCH={\"enable\":true,\"json\":true,\"nmea\":false,\"raw\":0,\"scaled\":true,\"timing\":true}";

/// What the rules read of one report of the daemon.
#[derive(Debug, PartialEq, Eq)]
pub enum GpsReport {
    /// The daemon's version, with the major number of its protocol.
    Version { proto_major: u8 },
    /// A time-position-velocity fix, with its time if it has one.
    Tpv { time: Option<String> },
    /// A sky view, with the number of satellites it lists if it has a list.
    Sky { satellites: Option<usize> },
    /// Any other report.
    Other,
}

/// A report as values.
pub enum ReportView {
    Version { proto_major: u8 },
    Tpv { time: Option<Seq<char>> },
    Sky { satellites: Option<usize> },
    Other,
}

impl View for GpsReport {
    type V = ReportView;

    open spec fn view(&self) -> ReportView {
        match *self {
            GpsReport::Version { proto_major } => ReportView::Version { proto_major },
            GpsReport::Tpv { time: Some(text) } => ReportView::Tpv { time: Some(text@) },
            GpsReport::Tpv { time: None } => ReportView::Tpv { time: None },
            GpsReport::Sky { satellites } => ReportView::Sky { satellites },
            GpsReport::Other => ReportView::Other,
        }
    }
}

/// What to do with a report.
#[derive(Debug, PartialEq, Eq)]
pub enum GpsAction {
    /// Publish this event.
    Publish(Event),
    /// Warn that the daemon's protocol is older than supported.
    WarnVersion,
    /// Note that the text was not a report, and go on.
    Malformed,
    /// Do nothing.
    Ignore,
}

/// The seconds since 1970-01-01 of the instant that
/// `chrono::DateTime::parse_from_rfc3339` reads in `text`; `None` where it
/// does not accept the text.
pub uninterp spec fn rfc3339_seconds(text: Seq<char>) -> Option<i64>;

/// `chrono::DateTime::parse_from_rfc3339`, followed by
/// `DateTime::timestamp` on what it accepted: the result is a function of
/// the text alone, named `rfc3339_seconds`.
#[verifier::external_body]
fn parse_rfc3339(text: &str) -> (seconds: Option<i64>)
    ensures
        seconds == rfc3339_seconds(text@),
{
    match DateTime::parse_from_rfc3339(text) {
        Ok(instant) => Some(instant.timestamp()),
        Err(_) => None,
    }
}

/// The report that `serde_json::from_str` reads in `text` as a
/// `gpsd_proto::UnifiedResponse`; `None` where it does not accept the text.
pub uninterp spec fn gpsd_report(text: Seq<char>) -> Option<ReportView>;

/// `serde_json::from_str` into `gpsd_proto::UnifiedResponse`: the result is
/// a function of the text alone, named `gpsd_report`. Of a version report
/// the major protocol number is kept, of a fix its time, of a sky view the
/// length of its satellite list.
#[verifier::external_body]
fn decode_report(text: &str) -> (report: Option<GpsReport>)
    ensures
        gpsd_report(text@) == match report {
            Some(r) => Some(r@),
            None => None,
        },
{
    match serde_json::from_str::<UnifiedResponse>(text) {
        Ok(UnifiedResponse::Version(v)) => Some(GpsReport::Version { proto_major: v.proto_major }),
        Ok(UnifiedResponse::Tpv(t)) => Some(GpsReport::Tpv { time: t.time }),
        Ok(UnifiedResponse::Sky(s)) => Some(
            GpsReport::Sky { satellites: s.satellites.map(|list| list.len()) },
        ),
        Ok(_) => Some(GpsReport::Other),
        Err(_) => None,
    }
}

/// `gpsd_proto::PROTO_MAJOR_MIN`: the lowest major protocol number that is
/// supported, which is 3.
#[verifier::external_body]
fn lowest_supported_major() -> (major: u8)
    ensures
        major == 3,
{
    gpsd_proto::PROTO_MAJOR_MIN
}

/// The event for a fix whose time was read as `seconds`: a GPS timestamp of
/// that many units, unless the time was not accepted or lies before 1970.
pub open spec fn fix_event(seconds: Option<i64>) -> Option<Event> {
    match seconds {
        Some(s) if s >= 0 => Some(
            Event { event_type: EUdpEvents::NewGPSTimestamp(Timestamp { ts: s as u64 }) },
        ),
        _ => None,
    }
}

/// The event for a sky view: the number of satellites that it lists,
/// reduced to sixteen bits, and zero where it has no list.
pub open spec fn sky_event(satellites: Option<usize>) -> Event {
    match satellites {
        Some(count) => Event { event_type: EUdpEvents::NewGpsSky((count % 0x1_0000) as u16) },
        None => Event { event_type: EUdpEvents::NewGpsSky(0) },
    }
}

/// What is done with a report.
pub open spec fn report_action(report: ReportView) -> GpsAction {
    match report {
        ReportView::Version { proto_major } => if proto_major < 3 {
            GpsAction::WarnVersion
        } else {
            GpsAction::Ignore
        },
        ReportView::Tpv { time: Some(text) } => match fix_event(rfc3339_seconds(text)) {
            Some(event) => GpsAction::Publish(event),
            None => GpsAction::Ignore,
        },
        ReportView::Tpv { time: None } => GpsAction::Ignore,
        ReportView::Sky { satellites } => GpsAction::Publish(sky_event(satellites)),
        ReportView::Other => GpsAction::Ignore,
    }
}

/// The event for a fix whose time was read as `seconds`.
pub fn tpv_event(seconds: Option<i64>) -> (event: Option<Event>)
    ensures
        event == fix_event(seconds),
{
    match seconds {
        Some(s) => {
            if s >= 0 {
                Some(Event { event_type: EUdpEvents::NewGPSTimestamp(Timestamp::new(s as u64)) })
            } else {
                None
            }
        },
        None => None,
    }
}

/// Decides what to do with one report of the daemon: a fix with a time in
/// RFC 3339 form is published as a GPS timestamp, a sky view as a satellite
/// count, a version below the supported one draws a warning, and everything
/// else is ignored.
pub fn on_report(report: &GpsReport) -> (action: GpsAction)
    ensures
        action == report_action(report@),
{
    match report {
        GpsReport::Version { proto_major } => {
            if *proto_major < lowest_supported_major() {
                GpsAction::WarnVersion
            } else {
                GpsAction::Ignore
            }
        },
        GpsReport::Tpv { time } => match time {
            Some(text) => match tpv_event(parse_rfc3339(text.as_str())) {
                Some(event) => GpsAction::Publish(event),
                None => GpsAction::Ignore,
            },
            None => GpsAction::Ignore,
        },
        GpsReport::Sky { satellites } => match satellites {
            Some(listed) => {
                let count: usize = *listed % 0x1_0000;
                GpsAction::Publish(Event { event_type: EUdpEvents::NewGpsSky(count as u16) })
            },
            None => GpsAction::Publish(Event { event_type: EUdpEvents::NewGpsSky(0) }),
        },
        GpsReport::Other => GpsAction::Ignore,
    }
}

/// What is done with a piece of text from the daemon: what the report in
/// it calls for, or a note where the text is no report.
pub open spec fn text_action(text: Seq<char>) -> GpsAction {
    match gpsd_report(text) {
        Some(report) => report_action(report),
        None => GpsAction::Malformed,
    }
}

/// Decides what to do with one piece of text that the daemon sent. Text
/// that is no report is noted and never stops the source.
pub fn on_text(text: &str) -> (action: GpsAction)
    ensures
        action == text_action(text@),
{
    match decode_report(text) {
        Some(report) => on_report(&report),
        None => GpsAction::Malformed,
    }
}

} // verus!
