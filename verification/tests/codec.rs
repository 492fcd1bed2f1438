use timesync::address::Address;
use timesync::frac_value::FracValue;
use timesync::packet::{Packet, ProtocolError};
use timesync::timestamp::Timestamp;

fn peer() -> Address {
    Address::V4 { ipv4: 0xc0a8_0001, port: 40000 }
}

fn sample_frame() -> Vec<u8> {
    let mut frame: Vec<u8> = Vec::new();
    frame.push(0b11_100_011);
    frame.push(2);
    frame.push(6);
    frame.push(0xec);
    frame.extend_from_slice(&[0x00, 0x00, 0x01, 0x02]);
    frame.extend_from_slice(&[0x00, 0x00, 0x03, 0x04]);
    frame.extend_from_slice(&[0x47, 0x50, 0x53, 0x00]);
    frame.extend_from_slice(&[0x01, 0x02, 0x03, 0x04, 0x05, 0x06, 0x07, 0x08]);
    frame.extend_from_slice(&[0x11, 0x12, 0x13, 0x14, 0x15, 0x16, 0x17, 0x18]);
    frame.extend_from_slice(&[0x21, 0x22, 0x23, 0x24, 0x25, 0x26, 0x27, 0x28]);
    frame.extend_from_slice(&[0xf1, 0xf2, 0xf3, 0xf4, 0xf5, 0xf6, 0xf7, 0xf8]);
    frame
}

#[test]
fn timestamp_reads_big_endian() {
    let t = Timestamp::read(&[0x01, 0x02, 0x03, 0x04, 0x05, 0x06, 0x07, 0x08]);
    assert_eq!(t.ts, 0x0102_0304_0506_0708);
}

#[test]
fn timestamp_writes_big_endian() {
    let mut buf = [0u8; 8];
    Timestamp::new(0xa1b2_c3d4_e5f6_0718).write(&mut buf);
    assert_eq!(buf, [0xa1, 0xb2, 0xc3, 0xd4, 0xe5, 0xf6, 0x07, 0x18]);
}

#[test]
fn frac_value_reads_big_endian() {
    let v = FracValue::read(&[0x00, 0x01, 0x02, 0x03]);
    assert_eq!(v.val, 0x0001_0203);
}

#[test]
fn frac_value_writes_big_endian() {
    let mut buf = [0u8; 4];
    FracValue { val: 0xdead_beef }.write(&mut buf);
    assert_eq!(buf, [0xde, 0xad, 0xbe, 0xef]);
}

#[test]
fn frac_value_zero_and_increment() {
    let mut v = FracValue::zero();
    assert_eq!(v.val, 0);
    v.increment();
    v.increment();
    assert_eq!(v.val, 2);
}

#[test]
fn parse_decodes_every_field() {
    let at = Timestamp::new(77);
    let p = Packet::parse_at(&sample_frame(), peer(), at).unwrap();
    assert_eq!(p.remote_addr, peer());
    assert_eq!(p.local_ts, at);
    assert_eq!(p.leap, 3);
    assert_eq!(p.version, 4);
    assert_eq!(p.mode, 3);
    assert_eq!(p.stratum, 2);
    assert_eq!(p.poll, 6);
    assert_eq!(p.precision, -20);
    assert_eq!(p.delay.val, 0x0000_0102);
    assert_eq!(p.dispersion.val, 0x0000_0304);
    assert_eq!(p.ref_id, 0x4750_5300);
    assert_eq!(p.ref_ts.ts, 0x0102_0304_0506_0708);
    assert_eq!(p.orig_ts.ts, 0x1112_1314_1516_1718);
    assert_eq!(p.rx_ts.ts, 0x2122_2324_2526_2728);
    assert_eq!(p.tx_ts.ts, 0xf1f2_f3f4_f5f6_f7f8);
}

#[test]
fn serialize_inverts_parse() {
    let frame = sample_frame();
    let p = Packet::parse_at(&frame, peer(), Timestamp::zero()).unwrap();
    assert_eq!(p.serialize(), frame);
}

#[test]
fn serialize_inverts_parse_for_every_first_byte() {
    let mut flags: u16 = 0;
    while flags < 256 {
        let mut frame = sample_frame();
        frame[0] = flags as u8;
        let version = (flags >> 3) & 7;
        let parsed = Packet::parse_at(&frame, peer(), Timestamp::zero());
        if version >= 1 && version <= 4 {
            assert_eq!(parsed.unwrap().serialize(), frame);
        } else {
            assert_eq!(parsed, Err(ProtocolError::UnsupportedVersion));
        }
        flags += 1;
    }
}

#[test]
fn parse_inverts_serialize() {
    let p = Packet {
        remote_addr: peer(),
        local_ts: Timestamp::new(5),
        leap: 1,
        version: 3,
        mode: 4,
        stratum: 1,
        poll: -3,
        precision: -18,
        delay: FracValue { val: 0x0102_0304 },
        dispersion: FracValue { val: 0xffff_ffff },
        ref_id: 0x8000_0001,
        ref_ts: Timestamp::new(u64::MAX),
        orig_ts: Timestamp::new(1),
        rx_ts: Timestamp::new(0x8000_0000_0000_0000),
        tx_ts: Timestamp::new(0x0123_4567_89ab_cdef),
    };
    let bytes = p.serialize();
    assert_eq!(bytes.len(), 48);
    assert_eq!(bytes[0], 0b01_011_100);
    assert_eq!(bytes[2], 0xfd);
    assert_eq!(&bytes[40..48], &[0x01, 0x23, 0x45, 0x67, 0x89, 0xab, 0xcd, 0xef]);
    assert_eq!(Packet::parse_at(&bytes, peer(), Timestamp::new(5)), Ok(p));
}

#[test]
fn parse_rejects_short_buffers() {
    let frame = sample_frame();
    let mut len = 0;
    while len < 48 {
        assert_eq!(
            Packet::parse_at(&frame[..len], peer(), Timestamp::zero()),
            Err(ProtocolError::Truncated)
        );
        assert_eq!(Packet::parse(&frame[..len], peer()), Err(ProtocolError::Truncated));
        len += 1;
    }
}

#[test]
fn parse_rejects_unsupported_versions() {
    for version in [0u8, 5, 6, 7] {
        let mut frame = sample_frame();
        frame[0] = (version << 3) | 3;
        assert_eq!(
            Packet::parse_at(&frame, peer(), Timestamp::zero()),
            Err(ProtocolError::UnsupportedVersion)
        );
        assert_eq!(Packet::parse(&frame, peer()), Err(ProtocolError::UnsupportedVersion));
    }
}

#[test]
fn parse_accepts_supported_versions() {
    for version in [1u8, 2, 3, 4] {
        let mut frame = sample_frame();
        frame[0] = (version << 3) | 3;
        let p = Packet::parse(&frame, peer()).unwrap();
        assert_eq!(p.version, version);
        assert_eq!(p.serialize(), frame);
    }
}

#[test]
fn truncated_wins_over_version() {
    let mut frame = sample_frame();
    frame[0] = 0;
    assert_eq!(
        Packet::parse_at(&frame[..47], peer(), Timestamp::zero()),
        Err(ProtocolError::Truncated)
    );
}

#[test]
fn parse_ignores_bytes_after_the_frame() {
    let mut frame = sample_frame();
    let expected = Packet::parse_at(&frame, peer(), Timestamp::new(9));
    frame.extend_from_slice(&[1, 2, 3, 4, 5]);
    assert_eq!(Packet::parse_at(&frame, peer(), Timestamp::new(9)), expected);
}

#[test]
fn errors_in_words() {
    assert_eq!(ProtocolError::Truncated.message(), "Packet too short");
    assert_eq!(ProtocolError::UnsupportedVersion.message(), "Unsupported version");
}
