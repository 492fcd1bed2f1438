use timesync::address::Address;
use timesync::frac_value::FracValue;
use timesync::packet::Packet;
use timesync::server_state::ServerState;
use timesync::timestamp::Timestamp;

fn client_addr() -> Address {
    Address::V4 { ipv4: 0x0a00_0001, port: 50123 }
}

fn message(mode: u8, version: u8, remote_addr: Address) -> Packet {
    Packet {
        remote_addr,
        local_ts: Timestamp::new(1000),
        leap: 0,
        version,
        mode,
        stratum: 0,
        poll: 4,
        precision: 0,
        delay: FracValue::zero(),
        dispersion: FracValue::zero(),
        ref_id: 0,
        ref_ts: Timestamp::zero(),
        orig_ts: Timestamp::zero(),
        rx_ts: Timestamp::zero(),
        tx_ts: Timestamp::new(0xabcd_ef01_2345_6789),
    }
}

fn state() -> ServerState {
    ServerState {
        leap: 1,
        stratum: 2,
        precision: -20,
        ref_id: 0x4750_5300,
        ref_ts: Timestamp::new(555),
        dispersion: FracValue { val: 9 },
        delay: FracValue { val: 3 },
    }
}

#[test]
fn address_port_of_both_families() {
    assert_eq!(Address::V4 { ipv4: 1, port: 123 }.port(), 123);
    assert_eq!(Address::V6 { ipv6: 1, port: 4567, flow_info: 0, scope_id: 0 }.port(), 4567);
}

#[test]
fn addresses_compare_by_every_field() {
    let a = Address::V6 { ipv6: 1, port: 123, flow_info: 0, scope_id: 0 };
    assert_eq!(a, Address::V6 { ipv6: 1, port: 123, flow_info: 0, scope_id: 0 });
    assert_ne!(a, Address::V6 { ipv6: 1, port: 123, flow_info: 1, scope_id: 0 });
    assert_ne!(a, Address::V6 { ipv6: 1, port: 123, flow_info: 0, scope_id: 2 });
    assert_ne!(a, Address::V6 { ipv6: 2, port: 123, flow_info: 0, scope_id: 0 });
    assert_ne!(a, Address::V4 { ipv4: 1, port: 123 });
    assert_ne!(Address::V4 { ipv4: 1, port: 123 }, Address::V4 { ipv4: 1, port: 124 });
}

#[test]
fn client_and_symmetric_active_modes_are_requests() {
    assert!(message(1, 4, client_addr()).is_request());
    assert!(message(3, 4, client_addr()).is_request());
    assert!(message(3, 1, Address::V4 { ipv4: 1, port: 123 }).is_request());
}

#[test]
fn other_modes_are_not_requests() {
    for mode in [2u8, 4, 5, 6, 7] {
        assert!(!message(mode, 4, client_addr()).is_request());
        assert!(!message(mode, 1, client_addr()).is_request());
    }
}

#[test]
fn legacy_mode_zero_rule() {
    assert!(message(0, 1, client_addr()).is_request());
    assert!(!message(0, 1, Address::V4 { ipv4: 0x0a00_0001, port: 123 }).is_request());
    assert!(!message(0, 2, client_addr()).is_request());
    assert!(!message(0, 4, client_addr()).is_request());
    assert!(message(0, 1, Address::V6 { ipv6: 9, port: 124, flow_info: 0, scope_id: 0 })
        .is_request());
    assert!(!message(0, 1, Address::V6 { ipv6: 9, port: 123, flow_info: 0, scope_id: 0 })
        .is_request());
}

#[test]
fn no_response_to_what_is_not_a_request() {
    for mode in [2u8, 4, 5, 6, 7] {
        let m = message(mode, 4, client_addr());
        assert_eq!(m.make_response(&state()), None);
        assert_eq!(m.make_response_at(&state(), Timestamp::new(1)), None);
    }
    let legacy_from_ntp_port = message(0, 1, Address::V4 { ipv4: 5, port: 123 });
    assert_eq!(legacy_from_ntp_port.make_response(&state()), None);
}

#[test]
fn response_to_a_client_request() {
    let request = message(3, 4, client_addr());
    let reply = request.make_response_at(&state(), Timestamp::new(2000)).unwrap();
    assert_eq!(
        reply,
        Packet {
            remote_addr: client_addr(),
            local_ts: Timestamp::zero(),
            leap: 1,
            version: 4,
            mode: 4,
            stratum: 2,
            poll: 4,
            precision: -20,
            delay: FracValue { val: 3 },
            dispersion: FracValue { val: 9 },
            ref_id: 0x4750_5300,
            ref_ts: Timestamp::new(555),
            orig_ts: Timestamp::new(0xabcd_ef01_2345_6789),
            rx_ts: Timestamp::new(1000),
            tx_ts: Timestamp::new(2000),
        }
    );
}

#[test]
fn response_mode_follows_request_mode() {
    let symmetric = message(1, 3, client_addr());
    let reply = symmetric.make_response_at(&state(), Timestamp::new(1)).unwrap();
    assert_eq!(reply.mode, 2);
    assert_eq!(reply.version, 3);
    assert_eq!(reply.orig_ts, symmetric.tx_ts);
    let client = message(3, 3, client_addr());
    assert_eq!(client.make_response_at(&state(), Timestamp::new(1)).unwrap().mode, 4);
    let legacy = message(0, 1, client_addr());
    let reply = legacy.make_response_at(&state(), Timestamp::new(1)).unwrap();
    assert_eq!(reply.mode, 4);
    assert_eq!(reply.orig_ts, legacy.tx_ts);
}

#[test]
fn response_with_the_clock() {
    let request = message(3, 4, client_addr());
    let before = Timestamp::now();
    let reply = request.make_response(&state()).unwrap();
    assert_eq!(reply.mode, 4);
    assert_eq!(reply.orig_ts, request.tx_ts);
    assert_eq!(reply.rx_ts, request.local_ts);
    assert_eq!(reply.ref_ts, Timestamp::new(555));
    assert_eq!(Some(reply), request.make_response_at(&state(), reply.tx_ts));
    assert!(reply.tx_ts.diff_to_sec(&before) >= 0);
}

#[test]
fn new_request_is_a_version_four_client_query() {
    let server = Address::V4 { ipv4: 0xc000_0201, port: 123 };
    let q = Packet::new_request(server);
    assert_eq!(q.remote_addr, server);
    assert_eq!(q.leap, 0);
    assert_eq!(q.version, 4);
    assert_eq!(q.mode, 3);
    assert_eq!(q.stratum, 0);
    assert_eq!(q.poll, 0);
    assert_eq!(q.precision, 0);
    assert_eq!(q.delay, FracValue::zero());
    assert_eq!(q.dispersion, FracValue::zero());
    assert_eq!(q.ref_id, 0);
    assert_eq!(q.ref_ts, Timestamp::zero());
    assert_eq!(q.orig_ts, Timestamp::zero());
    assert_eq!(q.rx_ts, Timestamp::zero());
    assert!(q.is_request());
    assert_eq!(q, Packet::new_request_with(server, q.local_ts, q.tx_ts));
}

#[test]
fn new_requests_carry_fresh_nonces() {
    let server = Address::V4 { ipv4: 0xc000_0201, port: 123 };
    let a = Packet::new_request(server);
    let b = Packet::new_request(server);
    let c = Packet::new_request(server);
    assert!(a.tx_ts != b.tx_ts || b.tx_ts != c.tx_ts);
}

#[test]
fn valid_response_needs_all_three() {
    let server = Address::V4 { ipv4: 0xc000_0201, port: 123 };
    let request = Packet::new_request_with(server, Timestamp::new(1), Timestamp::new(0x1234));
    let mut reply = message(4, 4, server);
    reply.orig_ts = Timestamp::new(0x1234);
    assert!(reply.is_valid_response(&request));

    let mut other_peer = reply;
    other_peer.remote_addr = Address::V4 { ipv4: 0xc000_0202, port: 123 };
    assert!(!other_peer.is_valid_response(&request));

    let mut other_port = reply;
    other_port.remote_addr = Address::V4 { ipv4: 0xc000_0201, port: 124 };
    assert!(!other_port.is_valid_response(&request));

    let mut other_mode = reply;
    other_mode.mode = 2;
    assert!(!other_mode.is_valid_response(&request));
    other_mode.mode = 3;
    assert!(!other_mode.is_valid_response(&request));
    other_mode.mode = 5;
    assert!(!other_mode.is_valid_response(&request));

    let mut stale = reply;
    stale.orig_ts = Timestamp::new(0x1235);
    assert!(!stale.is_valid_response(&request));
}

#[test]
fn valid_response_does_not_wrap_the_mode() {
    let server = Address::V4 { ipv4: 1, port: 123 };
    let mut request = message(255, 4, server);
    request.tx_ts = Timestamp::new(5);
    let mut reply = message(0, 4, server);
    reply.orig_ts = Timestamp::new(5);
    assert!(!reply.is_valid_response(&request));
}

#[test]
fn server_state_of_a_message() {
    let mut m = message(4, 4, client_addr());
    m.leap = 2;
    m.stratum = 3;
    m.precision = -10;
    m.ref_id = 77;
    m.ref_ts = Timestamp::new(88);
    m.dispersion = FracValue { val: 5 };
    m.delay = FracValue { val: 6 };
    let s = m.get_server_state();
    assert_eq!(
        s,
        ServerState {
            leap: 2,
            stratum: 3,
            precision: -10,
            ref_id: 77,
            ref_ts: Timestamp::new(88),
            dispersion: FracValue { val: 5 },
            delay: FracValue { val: 6 },
        }
    );
}

#[test]
fn request_and_reply_over_the_wire() {
    let server_addr = Address::V4 { ipv4: 0xc000_0201, port: 123 };
    let query = Packet::new_request_with(server_addr, Timestamp::new(10), Timestamp::new(0xfeed));
    let datagram = query.serialize();

    let received = Packet::parse_at(&datagram, client_addr(), Timestamp::new(20)).unwrap();
    assert_eq!(received.mode, 3);
    let reply = received.make_response_at(&state(), Timestamp::new(30)).unwrap();
    assert_eq!(reply.mode, 4);
    assert_eq!(reply.orig_ts, query.tx_ts);
    assert_eq!(reply.remote_addr, client_addr());

    let answer = Packet::parse_at(&reply.serialize(), server_addr, Timestamp::new(40)).unwrap();
    assert!(answer.is_valid_response(&query));
    assert_eq!(answer.rx_ts, Timestamp::new(20));
    assert_eq!(answer.tx_ts, Timestamp::new(30));
    assert_eq!(answer.get_server_state(), state());
}
