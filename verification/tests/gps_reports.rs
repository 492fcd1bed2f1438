use timesync::events::{EUdpEvents, Event};
use timesync::gps::{on_report, on_text, tpv_event, GpsAction, GpsReport};
use timesync::timestamp::Timestamp;

fn fix(time: &str) -> GpsReport {
    GpsReport::Tpv { time: Some(time.to_string()) }
}

fn gps_time(seconds: u64) -> GpsAction {
    GpsAction::Publish(Event { event_type: EUdpEvents::NewGPSTimestamp(Timestamp::new(seconds)) })
}

#[test]
fn a_fix_with_a_time_is_published() {
    assert_eq!(on_report(&fix("2024-01-01T00:00:00Z")), gps_time(1_704_067_200));
    assert_eq!(on_report(&fix("2015-05-15T00:00:00.000Z")), gps_time(1_431_648_000));
    assert_eq!(on_report(&fix("1970-01-01T00:00:00Z")), gps_time(0));
}

#[test]
fn a_fix_with_an_offset_is_read_in_utc() {
    assert_eq!(on_report(&fix("1996-12-19T16:39:57-08:00")), gps_time(851_042_397));
}

#[test]
fn a_fix_with_a_malformed_time_is_skipped() {
    assert_eq!(on_report(&fix("yesterday")), GpsAction::Ignore);
    assert_eq!(on_report(&fix("")), GpsAction::Ignore);
    assert_eq!(on_report(&fix("2024-13-01T00:00:00Z")), GpsAction::Ignore);
    assert_eq!(on_report(&fix("2024-01-01 00:00")), GpsAction::Ignore);
}

#[test]
fn a_fix_before_1970_is_skipped() {
    assert_eq!(on_report(&fix("1969-12-31T23:59:59Z")), GpsAction::Ignore);
}

#[test]
fn a_fix_without_a_time_is_skipped() {
    assert_eq!(on_report(&GpsReport::Tpv { time: None }), GpsAction::Ignore);
}

#[test]
fn a_sky_view_gives_the_satellite_count() {
    assert_eq!(
        on_report(&GpsReport::Sky { satellites: Some(7) }),
        GpsAction::Publish(Event { event_type: EUdpEvents::NewGpsSky(7) })
    );
    assert_eq!(
        on_report(&GpsReport::Sky { satellites: Some(0) }),
        GpsAction::Publish(Event { event_type: EUdpEvents::NewGpsSky(0) })
    );
    assert_eq!(
        on_report(&GpsReport::Sky { satellites: Some(65_539) }),
        GpsAction::Publish(Event { event_type: EUdpEvents::NewGpsSky(3) })
    );
}

#[test]
fn a_sky_view_without_a_list_counts_zero() {
    assert_eq!(
        on_report(&GpsReport::Sky { satellites: None }),
        GpsAction::Publish(Event { event_type: EUdpEvents::NewGpsSky(0) })
    );
}

#[test]
fn an_old_daemon_draws_a_warning() {
    assert_eq!(on_report(&GpsReport::Version { proto_major: 2 }), GpsAction::WarnVersion);
    assert_eq!(on_report(&GpsReport::Version { proto_major: 0 }), GpsAction::WarnVersion);
    assert_eq!(on_report(&GpsReport::Version { proto_major: 3 }), GpsAction::Ignore);
    assert_eq!(on_report(&GpsReport::Version { proto_major: 4 }), GpsAction::Ignore);
}

#[test]
fn other_reports_are_ignored() {
    assert_eq!(on_report(&GpsReport::Other), GpsAction::Ignore);
}

#[test]
fn event_of_parsed_seconds() {
    assert_eq!(
        tpv_event(Some(5)),
        Some(Event { event_type: EUdpEvents::NewGPSTimestamp(Timestamp::new(5)) })
    );
    assert_eq!(
        tpv_event(Some(0)),
        Some(Event { event_type: EUdpEvents::NewGPSTimestamp(Timestamp::new(0)) })
    );
    assert_eq!(tpv_event(Some(-1)), None);
    assert_eq!(tpv_event(Some(i64::MIN)), None);
    assert_eq!(tpv_event(None), None);
}

#[test]
fn text_of_a_fix() {
    let text = "{\"class\":\"TPV\",\"device\":\"/dev/ttyUSB0\",\"mode\":3,\"time\":\"2024-01-01T00:00:00.000Z\",\"lat\":52.0,\"lon\":13.0}";
    assert_eq!(on_text(text), gps_time(1_704_067_200));
}

#[test]
fn text_of_a_fix_without_time() {
    assert_eq!(on_text("{\"class\":\"TPV\",\"mode\":1}"), GpsAction::Ignore);
}

#[test]
fn text_of_a_fix_with_a_bad_time() {
    assert_eq!(on_text("{\"class\":\"TPV\",\"mode\":1,\"time\":\"noon\"}"), GpsAction::Ignore);
}

#[test]
fn text_of_a_sky_view() {
    let text = "{\"class\":\"SKY\",\"satellites\":[{\"PRN\":1,\"el\":45.0,\"az\":196.0,\"ss\":34.0,\"used\":true},{\"PRN\":2,\"el\":5.0,\"az\":10.0,\"ss\":20.0,\"used\":false}]}";
    assert_eq!(
        on_text(text),
        GpsAction::Publish(Event { event_type: EUdpEvents::NewGpsSky(2) })
    );
}

#[test]
fn text_of_a_sky_view_without_satellites() {
    assert_eq!(
        on_text("{\"class\":\"SKY\"}"),
        GpsAction::Publish(Event { event_type: EUdpEvents::NewGpsSky(0) })
    );
}

#[test]
fn text_of_a_version_report() {
    let old = "{\"class\":\"VERSION\",\"release\":\"2.0\",\"rev\":\"r\",\"proto_major\":2,\"proto_minor\":9}";
    assert_eq!(on_text(old), GpsAction::WarnVersion);
    let new = "{\"class\":\"VERSION\",\"release\":\"3.25\",\"rev\":\"r\",\"proto_major\":3,\"proto_minor\":14}";
    assert_eq!(on_text(new), GpsAction::Ignore);
}

#[test]
fn text_of_other_reports() {
    assert_eq!(on_text("{\"class\":\"DEVICES\",\"devices\":[]}"), GpsAction::Ignore);
    assert_eq!(
        on_text("{\"class\":\"WATCH\",\"enable\":true,\"json\":true}"),
        GpsAction::Ignore
    );
}

#[test]
fn text_that_is_no_report() {
    assert_eq!(on_text(""), GpsAction::Malformed);
    assert_eq!(on_text("not json"), GpsAction::Malformed);
    assert_eq!(on_text("{\"class\":\"NOPE\"}"), GpsAction::Malformed);
    assert_eq!(on_text("{\"class\":\"TPV\""), GpsAction::Malformed);
    assert_eq!(on_text("[1,2,3]"), GpsAction::Malformed);
}

#[test]
fn the_watch_command_asks_for_json() {
    assert_eq!(
        timesync::gps::WATCH_COMMAND,
        "?WATCH={\"enable\":true,\"json\":true,\"nmea\":false,\"raw\":0,\"scaled\":true,\"timing\":true}"
    );
}
