//! The NTP message: its 48-byte wire form and the request/response rules.

use crate::address::Address;
use crate::endian::{
    be_bytes, be_value, lemma_be_bytes_len, lemma_be_value_bound, lemma_bytes_of_value,
    lemma_radix_pow_words, lemma_value_of_bytes, read_be_u32, write_be_u32,
};
use crate::frac_value::FracValue;
use crate::server_state::ServerState;
use crate::timestamp::Timestamp;
use vstd::prelude::*;
use vstd::slice::slice_subrange;
use vstd::string::StringExecFns;

verus! {

/// The length of an NTP message without extension fields.
pub const FRAME_LEN: usize = 48;

/// The well-known NTP port.
pub const NTP_PORT: u16 = 123;

/// Why a datagram was not accepted as an NTP message.
#[derive(Debug, Copy, Clone, PartialEq, Eq, Structural)]
pub enum ProtocolError {
    /// The datagram has fewer than 48 bytes.
    Truncated,
    /// The version field is outside 1 to 4.
    UnsupportedVersion,
}

impl ProtocolError {
    /// The error in words.
    pub open spec fn text(&self) -> Seq<char> {
        match self {
            ProtocolError::Truncated => "Packet too short"@,
            ProtocolError::UnsupportedVersion => "Unsupported version"@,
        }
    }

    /// The error in words, for a log.
    pub fn message(&self) -> (text: String)
        ensures
            text@ == self.text(),
    {
        match self {
            ProtocolError::Truncated => String::from_str("Packet too short"),
            ProtocolError::UnsupportedVersion => String::from_str("Unsupported version"),
        }
    }
}

/// One NTP message, with the peer it came from or goes to and the local
/// time of its receipt.
#[derive(Debug, Copy, Clone, PartialEq, Eq, Structural)]
pub struct Packet {
    pub remote_addr: Address,
    pub local_ts: Timestamp,
    pub leap: u8,
    pub version: u8,
    pub mode: u8,
    pub stratum: u8,
    pub poll: i8,
    pub precision: i8,
    pub delay: FracValue,
    pub dispersion: FracValue,
    pub ref_id: u32,
    pub ref_ts: Timestamp,
    pub orig_ts: Timestamp,
    pub rx_ts: Timestamp,
    pub tx_ts: Timestamp,
}

/// The first byte of a frame: two bits of leap indicator, three of version,
/// three of mode.
pub open spec fn flags_byte(leap: u8, version: u8, mode: u8) -> u8 {
    (leap << 6) | (version << 3) | mode
}

/// The leap indicator in a frame's first byte.
pub open spec fn flags_leap(flags: u8) -> u8 {
    flags >> 6
}

/// The version in a frame's first byte.
pub open spec fn flags_version(flags: u8) -> u8 {
    (flags >> 3) & 7
}

/// The mode in a frame's first byte.
pub open spec fn flags_mode(flags: u8) -> u8 {
    flags & 7
}

/// The versions of the protocol that are accepted.
pub open spec fn supported_version(version: u8) -> bool {
    1 <= version <= 4
}

/// The big-endian 32-bit number at `bytes[at..at + 4]`.
pub open spec fn word_at(bytes: Seq<u8>, at: int) -> u32 {
    be_value(bytes.subrange(at, at + 4)) as u32
}

/// The big-endian 64-bit number at `bytes[at..at + 8]`.
pub open spec fn long_at(bytes: Seq<u8>, at: int) -> u64 {
    be_value(bytes.subrange(at, at + 8)) as u64
}

/// The message that the first 48 bytes of `bytes` spell.
pub open spec fn decode(bytes: Seq<u8>, remote_addr: Address, local_ts: Timestamp) -> Packet
    recommends
        bytes.len() >= 48,
{
    Packet {
        remote_addr,
        local_ts,
        leap: flags_leap(bytes[0]),
        version: flags_version(bytes[0]),
        mode: flags_mode(bytes[0]),
        stratum: bytes[1],
        poll: bytes[2] as i8,
        precision: bytes[3] as i8,
        delay: FracValue { val: word_at(bytes, 4) },
        dispersion: FracValue { val: word_at(bytes, 8) },
        ref_id: word_at(bytes, 12),
        ref_ts: Timestamp { ts: long_at(bytes, 16) },
        orig_ts: Timestamp { ts: long_at(bytes, 24) },
        rx_ts: Timestamp { ts: long_at(bytes, 32) },
        tx_ts: Timestamp { ts: long_at(bytes, 40) },
    }
}

/// What parsing a datagram yields: too short a datagram is truncated, a
/// version outside 1 to 4 is unsupported, anything else decodes.
pub open spec fn parse_result(bytes: Seq<u8>, remote_addr: Address, local_ts: Timestamp) -> Result<
    Packet,
    ProtocolError,
> {
    if bytes.len() < 48 {
        Err(ProtocolError::Truncated)
    } else if !supported_version(flags_version(bytes[0])) {
        Err(ProtocolError::UnsupportedVersion)
    } else {
        Ok(decode(bytes, remote_addr, local_ts))
    }
}

impl Packet {
    /// The 48 bytes of the message on the wire.
    pub open spec fn wire(&self) -> Seq<u8> {
        seq![
            flags_byte(self.leap, self.version, self.mode),
            self.stratum,
            self.poll as u8,
            self.precision as u8,
        ] + be_bytes(self.delay.val as nat, 4) + be_bytes(self.dispersion.val as nat, 4)
            + be_bytes(self.ref_id as nat, 4) + be_bytes(self.ref_ts.ts as nat, 8) + be_bytes(
            self.orig_ts.ts as nat,
            8,
        ) + be_bytes(self.rx_ts.ts as nat, 8) + be_bytes(self.tx_ts.ts as nat, 8)
    }

    /// Whether each header field fits the bits that the wire gives it and the
    /// version is a supported one.
    pub open spec fn well_formed(&self) -> bool {
        self.leap < 4 && supported_version(self.version) && self.mode < 8
    }

    /// Whether the message asks for a reply: mode 1 or 3, or the legacy form
    /// of mode 0 with version 1 from a port other than 123.
    pub open spec fn spec_is_request(&self) -> bool {
        self.mode == 1 || self.mode == 3 || (self.mode == 0 && self.version == 1
            && self.remote_addr.spec_port() != 123)
    }

    /// The reply that a server in `state` sends at time `now`, if the message
    /// asks for one.
    pub open spec fn response(&self, state: ServerState, now: Timestamp) -> Option<Packet> {
        if self.spec_is_request() {
            Some(
                Packet {
                    remote_addr: self.remote_addr,
                    local_ts: Timestamp { ts: 0 },
                    leap: state.leap,
                    version: self.version,
                    mode: if self.mode == 1 {
                        2u8
                    } else {
                        4u8
                    },
                    stratum: state.stratum,
                    poll: self.poll,
                    precision: state.precision,
                    delay: state.delay,
                    dispersion: state.dispersion,
                    ref_id: state.ref_id,
                    ref_ts: state.ref_ts,
                    orig_ts: self.tx_ts,
                    rx_ts: self.local_ts,
                    tx_ts: now,
                },
            )
        } else {
            None
        }
    }

    /// The client query to `remote_addr` that is built at `local_ts` and
    /// carries `nonce` as its transmit timestamp.
    pub open spec fn request(remote_addr: Address, local_ts: Timestamp, nonce: Timestamp) -> Packet {
        Packet {
            remote_addr,
            local_ts,
            leap: 0,
            version: 4,
            mode: 3,
            stratum: 0,
            poll: 0,
            precision: 0,
            delay: FracValue { val: 0 },
            dispersion: FracValue { val: 0 },
            ref_id: 0,
            ref_ts: Timestamp { ts: 0 },
            orig_ts: Timestamp { ts: 0 },
            rx_ts: Timestamp { ts: 0 },
            tx_ts: nonce,
        }
    }

    /// Whether `self` answers `request`: it comes from the peer that the
    /// request went to, its mode is the request's plus one, and it echoes the
    /// request's transmit timestamp.
    pub open spec fn answers(&self, request: &Packet) -> bool {
        self.remote_addr == request.remote_addr && self.mode as int == request.mode as int + 1
            && self.orig_ts == request.tx_ts
    }

    /// Parses a datagram that arrived from `remote_addr` at `local_ts`.
    pub fn parse_at(buf: &[u8], remote_addr: Address, local_ts: Timestamp) -> (parsed: Result<
        Packet,
        ProtocolError,
    >)
        ensures
            parsed == parse_result(buf@, remote_addr, local_ts),
            buf@.len() < 48 ==> parsed == Err::<Packet, ProtocolError>(ProtocolError::Truncated),
            buf@.len() >= 48 && !supported_version(flags_version(buf@[0])) ==> parsed == Err::<
                Packet,
                ProtocolError,
            >(ProtocolError::UnsupportedVersion),
    {
        if buf.len() < FRAME_LEN {
            return Err(ProtocolError::Truncated);
        }
        let flags: u8 = buf[0];
        let leap: u8 = flags >> 6;
        let version: u8 = (flags >> 3) & 7;
        let mode: u8 = flags & 7;
        if version < 1 || version > 4 {
            return Err(ProtocolError::UnsupportedVersion);
        }
        Ok(
            Packet {
                remote_addr,
                local_ts,
                leap,
                version,
                mode,
                stratum: buf[1],
                poll: #[verifier::truncate] (buf[2] as i8),
                precision: #[verifier::truncate] (buf[3] as i8),
                delay: FracValue::read(slice_subrange(buf, 4, 8)),
                dispersion: FracValue::read(slice_subrange(buf, 8, 12)),
                ref_id: read_be_u32(slice_subrange(buf, 12, 16)),
                ref_ts: Timestamp::read(slice_subrange(buf, 16, 24)),
                orig_ts: Timestamp::read(slice_subrange(buf, 24, 32)),
                rx_ts: Timestamp::read(slice_subrange(buf, 32, 40)),
                tx_ts: Timestamp::read(slice_subrange(buf, 40, 48)),
            },
        )
    }

    /// Parses a datagram that has just arrived from `remote_addr`; the time
    /// of receipt is read from the clock.
    pub fn parse(buf: &[u8], remote_addr: Address) -> (parsed: Result<Packet, ProtocolError>)
        ensures
            match parsed {
                Ok(packet) => parse_result(buf@, remote_addr, packet.local_ts) == Ok::<
                    Packet,
                    ProtocolError,
                >(packet),
                Err(e) => forall|at: Timestamp|
                    #[trigger] parse_result(buf@, remote_addr, at) == Err::<Packet, ProtocolError>(
                        e,
                    ),
            },
            buf@.len() < 48 ==> parsed == Err::<Packet, ProtocolError>(ProtocolError::Truncated),
            buf@.len() >= 48 && !supported_version(flags_version(buf@[0])) ==> parsed == Err::<
                Packet,
                ProtocolError,
            >(ProtocolError::UnsupportedVersion),
    {
        let local_ts = Timestamp::now();
        Packet::parse_at(buf, remote_addr, local_ts)
    }

    /// The 48 bytes of the message on the wire.
    pub fn serialize(&self) -> (out: Vec<u8>)
        ensures
            out@ == self.wire(),
            out@.len() == 48,
    {
        let mut out: Vec<u8> = Vec::with_capacity(FRAME_LEN);
        out.push((self.leap << 6) | (self.version << 3) | self.mode);
        out.push(self.stratum);
        out.push(#[verifier::truncate] (self.poll as u8));
        out.push(#[verifier::truncate] (self.precision as u8));
        let mut word: [u8; 4] = [0u8; 4];
        self.delay.write(&mut word);
        out.extend_from_slice(&word);
        self.dispersion.write(&mut word);
        out.extend_from_slice(&word);
        write_be_u32(&mut word, self.ref_id);
        out.extend_from_slice(&word);
        let mut long: [u8; 8] = [0u8; 8];
        self.ref_ts.write(&mut long);
        out.extend_from_slice(&long);
        self.orig_ts.write(&mut long);
        out.extend_from_slice(&long);
        self.rx_ts.write(&mut long);
        out.extend_from_slice(&long);
        self.tx_ts.write(&mut long);
        out.extend_from_slice(&long);
        proof {
            lemma_be_bytes_len(self.delay.val as nat, 4);
            lemma_be_bytes_len(self.dispersion.val as nat, 4);
            lemma_be_bytes_len(self.ref_id as nat, 4);
            lemma_be_bytes_len(self.ref_ts.ts as nat, 8);
            lemma_be_bytes_len(self.orig_ts.ts as nat, 8);
            lemma_be_bytes_len(self.rx_ts.ts as nat, 8);
            lemma_be_bytes_len(self.tx_ts.ts as nat, 8);
            assert(out@ =~= self.wire());
        }
        out
    }

    /// Whether the message asks for a reply.
    #[verifier::when_used_as_spec(spec_is_request)]
    pub fn is_request(&self) -> (asks: bool)
        ensures
            asks == self.spec_is_request(),
    {
        self.mode == 1 || self.mode == 3 || (self.mode == 0 && self.version == 1
            && self.remote_addr.port() != NTP_PORT)
    }

    /// The reply to send at time `now` from a server in `state`: none unless
    /// the message is a request.
    pub fn make_response_at(&self, state: &ServerState, now: Timestamp) -> (reply: Option<Packet>)
        ensures
            reply == self.response(*state, now),
            !self.spec_is_request() ==> reply.is_none(),
            reply matches Some(r) ==> r.orig_ts == self.tx_ts && r.mode == (if self.mode == 1 {
                2u8
            } else {
                4u8
            }),
    {
        if !self.is_request() {
            return None;
        }
        Some(
            Packet {
                remote_addr: self.remote_addr,
                local_ts: Timestamp::zero(),
                leap: state.leap,
                version: self.version,
                mode: if self.mode == 1 {
                    2
                } else {
                    4
                },
                stratum: state.stratum,
                poll: self.poll,
                precision: state.precision,
                delay: state.delay,
                dispersion: state.dispersion,
                ref_id: state.ref_id,
                ref_ts: state.ref_ts,
                orig_ts: self.tx_ts,
                rx_ts: self.local_ts,
                tx_ts: now,
            },
        )
    }

    /// The reply to send now from a server in `state`: none unless the
    /// message is a request. The transmit timestamp is read from the clock.
    pub fn make_response(&self, state: &ServerState) -> (reply: Option<Packet>)
        ensures
            reply.is_some() == self.spec_is_request(),
            reply matches Some(r) ==> reply == self.response(*state, r.tx_ts),
            reply matches Some(r) ==> r.orig_ts == self.tx_ts && r.mode == (if self.mode == 1 {
                2u8
            } else {
                4u8
            }),
    {
        if !self.is_request() {
            return None;
        }
        self.make_response_at(state, Timestamp::now())
    }

    /// The client query to `remote_addr` built at `local_ts` with `nonce` as
    /// its transmit timestamp.
    pub fn new_request_with(remote_addr: Address, local_ts: Timestamp, nonce: Timestamp) -> (query:
        Packet)
        ensures
            query == Packet::request(remote_addr, local_ts, nonce),
    {
        Packet {
            remote_addr,
            local_ts,
            leap: 0,
            version: 4,
            mode: 3,
            stratum: 0,
            poll: 0,
            precision: 0,
            delay: FracValue::zero(),
            dispersion: FracValue::zero(),
            ref_id: 0,
            ref_ts: Timestamp::zero(),
            orig_ts: Timestamp::zero(),
            rx_ts: Timestamp::zero(),
            tx_ts: nonce,
        }
    }

    /// A fresh client query to `remote_addr`: mode 3, version 4, a random
    /// transmit timestamp, everything else zero but the local time.
    pub fn new_request(remote_addr: Address) -> (query: Packet)
        ensures
            query == Packet::request(remote_addr, query.local_ts, query.tx_ts),
            query.spec_is_request(),
    {
        let local_ts = Timestamp::now();
        let nonce = Timestamp::random();
        Packet::new_request_with(remote_addr, local_ts, nonce)
    }

    /// Whether `self` is a valid reply to `request`: same peer, the mode that
    /// follows the request's, and the request's transmit timestamp echoed.
    pub fn is_valid_response(&self, request: &Packet) -> (valid: bool)
        ensures
            valid == self.answers(request),
            valid == (self.remote_addr == request.remote_addr && self.mode as int
                == request.mode as int + 1 && self.orig_ts == request.tx_ts),
    {
        self.remote_addr == request.remote_addr && request.mode < u8::MAX && self.mode
            == request.mode + 1 && self.orig_ts == request.tx_ts
    }

    /// The server state that the message advertises.
    pub fn get_server_state(&self) -> (state: ServerState)
        ensures
            state == (ServerState {
                leap: self.leap,
                stratum: self.stratum,
                precision: self.precision,
                ref_id: self.ref_id,
                ref_ts: self.ref_ts,
                dispersion: self.dispersion,
                delay: self.delay,
            }),
    {
        ServerState {
            leap: self.leap,
            stratum: self.stratum,
            precision: self.precision,
            ref_id: self.ref_id,
            ref_ts: self.ref_ts,
            dispersion: self.dispersion,
            delay: self.delay,
        }
    }
}

/// A byte keeps its value when it is split into leap indicator, version and
/// mode and put together again.
pub proof fn lemma_flags_roundtrip(flags: u8)
    ensures
        flags_byte(flags_leap(flags), flags_version(flags), flags_mode(flags)) == flags,
{
    assert((((flags >> 6) << 6) | (((flags >> 3) & 7) << 3) | (flags & 7)) == flags)
        by (bit_vector);
}

/// Header fields that fit their bits are read back from the byte that they
/// were packed into.
pub proof fn lemma_flags_fields(leap: u8, version: u8, mode: u8)
    requires
        leap < 4,
        version < 8,
        mode < 8,
    ensures
        flags_leap(flags_byte(leap, version, mode)) == leap,
        flags_version(flags_byte(leap, version, mode)) == version,
        flags_mode(flags_byte(leap, version, mode)) == mode,
{
    assert((((leap << 6) | (version << 3) | mode) >> 6) == leap) by (bit_vector)
        requires
            leap < 4,
            version < 8,
            mode < 8,
    ;
    assert(((((leap << 6) | (version << 3) | mode) >> 3) & 7) == version) by (bit_vector)
        requires
            leap < 4,
            version < 8,
            mode < 8,
    ;
    assert((((leap << 6) | (version << 3) | mode) & 7) == mode) by (bit_vector)
        requires
            leap < 4,
            version < 8,
            mode < 8,
    ;
}

/// A byte read as a signed number and written back is the same byte, and
/// the other way round.
pub proof fn lemma_signed_byte(byte: u8, signed: i8)
    ensures
        (byte as i8) as u8 == byte,
        (signed as u8) as i8 == signed,
{
    assert((byte as i8) as u8 == byte) by (bit_vector);
    assert((signed as u8) as i8 == signed) by (bit_vector);
}

/// The four bytes at `at` are the encoding of the word that they spell.
proof fn lemma_word_at(bytes: Seq<u8>, at: int)
    requires
        0 <= at,
        at + 4 <= bytes.len(),
    ensures
        be_bytes(word_at(bytes, at) as nat, 4) == bytes.subrange(at, at + 4),
{
    let part = bytes.subrange(at, at + 4);
    lemma_bytes_of_value(part);
    lemma_be_value_bound(part);
    lemma_radix_pow_words();
}

/// The eight bytes at `at` are the encoding of the number that they spell.
proof fn lemma_long_at(bytes: Seq<u8>, at: int)
    requires
        0 <= at,
        at + 8 <= bytes.len(),
    ensures
        be_bytes(long_at(bytes, at) as nat, 8) == bytes.subrange(at, at + 8),
{
    let part = bytes.subrange(at, at + 8);
    lemma_bytes_of_value(part);
    lemma_be_value_bound(part);
    lemma_radix_pow_words();
}

/// Serialising inverts parsing: a 48-byte frame that parses is the wire form
/// of the message it parses to.
pub proof fn lemma_serialize_parse(bytes: Seq<u8>, remote_addr: Address, local_ts: Timestamp)
    requires
        bytes.len() == 48,
    ensures
        parse_result(bytes, remote_addr, local_ts) matches Ok(packet) ==> packet.wire() == bytes,
{
    let packet = decode(bytes, remote_addr, local_ts);
    lemma_flags_roundtrip(bytes[0]);
    lemma_signed_byte(bytes[2], 0);
    lemma_signed_byte(bytes[3], 0);
    lemma_word_at(bytes, 4);
    lemma_word_at(bytes, 8);
    lemma_word_at(bytes, 12);
    lemma_long_at(bytes, 16);
    lemma_long_at(bytes, 24);
    lemma_long_at(bytes, 32);
    lemma_long_at(bytes, 40);
    assert(packet.wire() =~= bytes);
}

/// Parsing inverts serialising: the wire form of a well-formed message
/// parses, for the same peer and time of receipt, to that message.
pub proof fn lemma_parse_serialize(packet: Packet)
    requires
        packet.well_formed(),
    ensures
        packet.wire().len() == 48,
        parse_result(packet.wire(), packet.remote_addr, packet.local_ts) == Ok::<
            Packet,
            ProtocolError,
        >(packet),
{
    let bytes = packet.wire();
    lemma_be_bytes_len(packet.delay.val as nat, 4);
    lemma_be_bytes_len(packet.dispersion.val as nat, 4);
    lemma_be_bytes_len(packet.ref_id as nat, 4);
    lemma_be_bytes_len(packet.ref_ts.ts as nat, 8);
    lemma_be_bytes_len(packet.orig_ts.ts as nat, 8);
    lemma_be_bytes_len(packet.rx_ts.ts as nat, 8);
    lemma_be_bytes_len(packet.tx_ts.ts as nat, 8);
    lemma_flags_fields(packet.leap, packet.version, packet.mode);
    lemma_signed_byte(0, packet.poll);
    lemma_signed_byte(0, packet.precision);
    lemma_radix_pow_words();
    lemma_value_of_bytes(packet.delay.val as nat, 4);
    lemma_value_of_bytes(packet.dispersion.val as nat, 4);
    lemma_value_of_bytes(packet.ref_id as nat, 4);
    lemma_value_of_bytes(packet.ref_ts.ts as nat, 8);
    lemma_value_of_bytes(packet.orig_ts.ts as nat, 8);
    lemma_value_of_bytes(packet.rx_ts.ts as nat, 8);
    lemma_value_of_bytes(packet.tx_ts.ts as nat, 8);
    assert(bytes.subrange(4, 8) =~= be_bytes(packet.delay.val as nat, 4));
    assert(bytes.subrange(8, 12) =~= be_bytes(packet.dispersion.val as nat, 4));
    assert(bytes.subrange(12, 16) =~= be_bytes(packet.ref_id as nat, 4));
    assert(bytes.subrange(16, 24) =~= be_bytes(packet.ref_ts.ts as nat, 8));
    assert(bytes.subrange(24, 32) =~= be_bytes(packet.orig_ts.ts as nat, 8));
    assert(bytes.subrange(32, 40) =~= be_bytes(packet.rx_ts.ts as nat, 8));
    assert(bytes.subrange(40, 48) =~= be_bytes(packet.tx_ts.ts as nat, 8));
}

/// A reply passes the check that a client makes of it against the request
/// it was built for exactly when that request has mode 1 or 3: the reply to
/// a legacy request of mode 0 has mode 4, which is not the mode that follows.
pub proof fn lemma_response_answers(request: Packet, state: ServerState, now: Timestamp)
    ensures
        request.response(state, now) matches Some(reply) ==> (reply.answers(&request) <==> (
        request.mode == 1 || request.mode == 3)),
{
}

} // verus!
