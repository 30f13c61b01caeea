//! The packet format on the wire, and its model.
//!
//! One packet travels as
//! `MAGIC (5 bytes) | VERSION (major, minor, patch) | LENGTH (u32, little-endian) | PAYLOAD`.

use vstd::prelude::*;

verus! {

/// Every packet starts with these bytes: `b"eterm"`, then major, minor, patch.
pub const PROTOCOL_HEADER: [u8; 8] = [101, 116, 101, 114, 109, 0, 0, 1];

/// Bytes of the magic at the start of [`PROTOCOL_HEADER`].
pub const MAGIC_LEN: usize = 5;

/// Bytes in front of a payload: the protocol header and the length.
pub const HEADER_LEN: usize = 12;

/// The longest payload that a receiver accepts.
pub const MAX_PACKET_LEN: u32 = 32_000_000;

/// A protocol version, as it travels in bytes 5 to 7 of a packet.
#[derive(Clone, Copy, Debug, PartialEq, Eq, Structural)]
pub struct Version {
    pub major: u8,
    pub minor: u8,
    pub patch: u8,
}

/// Why a peer's bytes were refused. Each of these is fatal to the connection.
#[derive(Clone, Copy, Debug, PartialEq, Eq, Structural)]
pub enum ProtocolError {
    /// The first five bytes are not the magic.
    NotThisProtocol,
    /// The peer speaks another version; no decoding across versions is tried.
    VersionMismatch { local: Version, remote: Version },
    /// The declared payload length is above [`MAX_PACKET_LEN`].
    OversizedPacket { length: u32 },
}

/// The eight header bytes as a sequence.
pub open spec fn header_bytes() -> Seq<u8> {
    seq![101u8, 116u8, 101u8, 114u8, 109u8, 0u8, 0u8, 1u8]
}

/// The version that this side speaks.
pub open spec fn local_version() -> Version {
    Version { major: 0, minor: 0, patch: 1 }
}

/// The four little-endian bytes of `n`, for `0 <= n < 2^32`.
pub open spec fn length_bytes(n: int) -> Seq<u8> {
    seq![
        (n % 256) as u8,
        ((n / 256) % 256) as u8,
        ((n / 65536) % 256) as u8,
        ((n / 16777216) % 256) as u8,
    ]
}

/// The number that four little-endian bytes stand for.
pub open spec fn length_value(b0: u8, b1: u8, b2: u8, b3: u8) -> int {
    b0 as int + 256 * (b1 as int) + 65536 * (b2 as int) + 16777216 * (b3 as int)
}

/// One packet as it travels. The length field holds the payload's length
/// reduced modulo 2^32, so it is the true length for every payload that a
/// receiver can accept.
pub open spec fn framed(payload: Seq<u8>) -> Seq<u8> {
    header_bytes() + length_bytes(payload.len() as int % 0x1_0000_0000) + payload
}

/// The first five bytes of `buf` are the magic. Meant for `buf.len() >= 12`.
pub open spec fn magic_matches(buf: Seq<u8>) -> bool {
    buf[0] == 101 && buf[1] == 116 && buf[2] == 101 && buf[3] == 114 && buf[4] == 109
}

/// The version that a header declares. Meant for `buf.len() >= 12`.
pub open spec fn declared_version(buf: Seq<u8>) -> Version {
    Version { major: buf[5], minor: buf[6], patch: buf[7] }
}

/// The payload length that a header declares. Meant for `buf.len() >= 12`.
pub open spec fn declared_len(buf: Seq<u8>) -> int {
    length_value(buf[8], buf[9], buf[10], buf[11])
}

/// What the start of a byte stream holds.
pub enum Parsed {
    /// Too few bytes to decide, or a good header whose payload has not all arrived.
    NotYet,
    /// One whole packet with this payload; `rest` is what follows it.
    Packet { payload: Seq<u8>, rest: Seq<u8> },
    /// A whole header that cannot be accepted.
    Refused(ProtocolError),
}

/// Reads the start of `buf`. The header is judged as soon as its twelve bytes
/// are there, in this order: magic, version, length; only then does the
/// payload's presence count.
pub open spec fn parse(buf: Seq<u8>) -> Parsed {
    if buf.len() < 12 {
        Parsed::NotYet
    } else if !magic_matches(buf) {
        Parsed::Refused(ProtocolError::NotThisProtocol)
    } else if declared_version(buf) != local_version() {
        Parsed::Refused(
            ProtocolError::VersionMismatch {
                local: local_version(),
                remote: declared_version(buf),
            },
        )
    } else if declared_len(buf) > 32_000_000 {
        Parsed::Refused(ProtocolError::OversizedPacket { length: declared_len(buf) as u32 })
    } else if buf.len() < 12 + declared_len(buf) {
        Parsed::NotYet
    } else {
        Parsed::Packet {
            payload: buf.subrange(12, 12 + declared_len(buf)),
            rest: buf.skip(12 + declared_len(buf)),
        }
    }
}

/// The payloads of the whole packets at the start of `stream`, in order, up to
/// the first place where no whole acceptable packet stands.
pub open spec fn packets_of(stream: Seq<u8>) -> Seq<Seq<u8>>
    decreases stream.len(),
{
    match parse(stream) {
        Parsed::Packet { payload, rest } => seq![payload] + packets_of(rest),
        _ => Seq::empty(),
    }
}

/// What is left of `stream` once the packets of [`packets_of`] are taken away.
pub open spec fn leftover(stream: Seq<u8>) -> Seq<u8>
    decreases stream.len(),
{
    match parse(stream) {
        Parsed::Packet { payload, rest } => leftover(rest),
        _ => stream,
    }
}

/// The bytes of several packets sent one after the other.
pub open spec fn wire(payloads: Seq<Seq<u8>>) -> Seq<u8>
    decreases payloads.len(),
{
    if payloads.len() == 0 {
        Seq::empty()
    } else {
        framed(payloads[0]) + wire(payloads.skip(1))
    }
}

/// The chunks laid end to end.
pub open spec fn concat(chunks: Seq<Seq<u8>>) -> Seq<u8>
    decreases chunks.len(),
{
    if chunks.len() == 0 {
        Seq::empty()
    } else {
        chunks[0] + concat(chunks.skip(1))
    }
}

/// The payloads that come out when the chunks arrive one at a time behind
/// `held`, and after each arrival every whole packet is taken.
pub open spec fn delivered(held: Seq<u8>, chunks: Seq<Seq<u8>>) -> Seq<Seq<u8>>
    decreases chunks.len(),
{
    if chunks.len() == 0 {
        Seq::empty()
    } else {
        packets_of(held + chunks[0]) + delivered(leftover(held + chunks[0]), chunks.skip(1))
    }
}

/// The local version, from [`PROTOCOL_HEADER`].
pub fn protocol_version() -> (v: Version)
    ensures
        v == local_version(),
{
    Version { major: PROTOCOL_HEADER[5], minor: PROTOCOL_HEADER[6], patch: PROTOCOL_HEADER[7] }
}

/// The twelve bytes that go in front of a payload of `len` bytes.
pub fn encode_header(len: usize) -> (out: Vec<u8>)
    ensures
        out@ == header_bytes() + length_bytes(len as int % 0x1_0000_0000),
{
    let mut out: Vec<u8> = Vec::new();
    let mut i: usize = 0;
    while i < 8
        invariant
            i <= 8,
            out@ == header_bytes().take(i as int),
        decreases 8 - i,
    {
        out.push(PROTOCOL_HEADER[i]);
        i = i + 1;
    }
    let n: u64 = (len as u64) % 0x1_0000_0000;
    out.push((n % 256) as u8);
    out.push(((n / 256) % 256) as u8);
    out.push(((n / 65536) % 256) as u8);
    out.push(((n / 16777216) % 256) as u8);
    assert(out@ =~= header_bytes() + length_bytes(len as int % 0x1_0000_0000));
    out
}

/// The outcome of looking at a header.
#[derive(Clone, Copy, Debug, PartialEq, Eq, Structural)]
pub enum HeaderCheck {
    /// Fewer than twelve bytes are there.
    Incomplete,
    /// The header is good and declares a payload of this many bytes.
    Accepted { payload_len: u32 },
    /// The header cannot be accepted.
    Refused(ProtocolError),
}

/// What [`check_header`] returns on `buf`.
pub open spec fn header_check(buf: Seq<u8>) -> HeaderCheck {
    if buf.len() < 12 {
        HeaderCheck::Incomplete
    } else if !magic_matches(buf) {
        HeaderCheck::Refused(ProtocolError::NotThisProtocol)
    } else if declared_version(buf) != local_version() {
        HeaderCheck::Refused(
            ProtocolError::VersionMismatch {
                local: local_version(),
                remote: declared_version(buf),
            },
        )
    } else if declared_len(buf) > 32_000_000 {
        HeaderCheck::Refused(ProtocolError::OversizedPacket { length: declared_len(buf) as u32 })
    } else {
        HeaderCheck::Accepted { payload_len: declared_len(buf) as u32 }
    }
}

/// Judges the header at the start of `buf` without looking at any payload byte:
/// magic first, then version, then the declared length.
pub fn check_header(buf: &[u8]) -> (res: HeaderCheck)
    ensures
        res == header_check(buf@),
{
    if buf.len() < HEADER_LEN {
        return HeaderCheck::Incomplete;
    }
    if buf[0] != PROTOCOL_HEADER[0] || buf[1] != PROTOCOL_HEADER[1] || buf[2] != PROTOCOL_HEADER[2]
        || buf[3] != PROTOCOL_HEADER[3] || buf[4] != PROTOCOL_HEADER[4] {
        return HeaderCheck::Refused(ProtocolError::NotThisProtocol);
    }
    let local: Version = protocol_version();
    let remote: Version = Version { major: buf[5], minor: buf[6], patch: buf[7] };
    if remote.major != local.major || remote.minor != local.minor || remote.patch != local.patch {
        return HeaderCheck::Refused(ProtocolError::VersionMismatch { local, remote });
    }
    let length: u32 = buf[8] as u32 + 256 * (buf[9] as u32) + 65536 * (buf[10] as u32) + 16777216
        * (buf[11] as u32);
    if length > MAX_PACKET_LEN {
        return HeaderCheck::Refused(ProtocolError::OversizedPacket { length });
    }
    HeaderCheck::Accepted { payload_len: length }
}

/// The length field reads back as the number that was written into it.
pub proof fn lemma_length_round_trip(n: int)
    requires
        0 <= n < 0x1_0000_0000,
    ensures
        length_bytes(n).len() == 4,
        length_value(length_bytes(n)[0], length_bytes(n)[1], length_bytes(n)[2], length_bytes(n)[3])
            == n,
{
}

/// A packet that was framed, with anything behind it, is received as it was
/// sent, and what stood behind it is left over.
pub proof fn lemma_parse_framed(payload: Seq<u8>, tail: Seq<u8>)
    requires
        payload.len() <= 32_000_000,
    ensures
        parse(framed(payload) + tail) == (Parsed::Packet { payload, rest: tail }),
{
    let n = payload.len() as int;
    let buf = framed(payload) + tail;
    lemma_length_round_trip(n);
    assert(n % 0x1_0000_0000 == n);
    let head = header_bytes() + length_bytes(n);
    assert(head.len() == 12);
    assert(buf.len() == 12 + n + tail.len());
    assert forall|i: int| 0 <= i < 12 implies buf[i] == head[i] by {}
    assert(buf[8] == length_bytes(n)[0]);
    assert(buf[9] == length_bytes(n)[1]);
    assert(buf[10] == length_bytes(n)[2]);
    assert(buf[11] == length_bytes(n)[3]);
    assert(declared_len(buf) == n);
    assert(magic_matches(buf));
    assert(declared_version(buf) == local_version());
    assert(buf.subrange(12, 12 + n) =~= payload);
    assert(buf.skip(12 + n) =~= tail);
}

/// More bytes behind a stream change neither a packet that is whole nor a
/// header that was refused.
pub proof fn lemma_parse_extend(a: Seq<u8>, b: Seq<u8>)
    ensures
        parse(a) matches Parsed::Packet { payload, rest } ==> parse(a + b) == (Parsed::Packet {
            payload,
            rest: rest + b,
        }),
        parse(a) matches Parsed::Refused(e) ==> parse(a + b) == Parsed::Refused(e),
{
    if a.len() >= 12 {
        let ab = a + b;
        assert forall|i: int| 0 <= i < 12 implies ab[i] == a[i] by {}
        assert(magic_matches(ab) == magic_matches(a));
        assert(declared_version(ab) == declared_version(a));
        assert(declared_len(ab) == declared_len(a));
        if parse(a) is Packet {
            let n = declared_len(a);
            assert(ab.subrange(12, 12 + n) =~= a.subrange(12, 12 + n));
            assert(ab.skip(12 + n) =~= a.skip(12 + n) + b);
        }
    }
}

/// What is left over holds no whole packet at its start.
pub proof fn lemma_leftover_is_drained(stream: Seq<u8>)
    ensures
        !(parse(leftover(stream)) is Packet),
        packets_of(leftover(stream)) == Seq::<Seq<u8>>::empty(),
        leftover(leftover(stream)) == leftover(stream),
    decreases stream.len(),
{
    match parse(stream) {
        Parsed::Packet { payload, rest } => {
            lemma_leftover_is_drained(rest);
        },
        _ => {},
    }
}

/// Taking the packets of a stream in two sittings, before and after more bytes
/// arrive, gives the packets of the whole stream.
pub proof fn lemma_packets_extend(a: Seq<u8>, b: Seq<u8>)
    ensures
        packets_of(a + b) == packets_of(a) + packets_of(leftover(a) + b),
        leftover(a + b) == leftover(leftover(a) + b),
    decreases a.len(),
{
    lemma_parse_extend(a, b);
    match parse(a) {
        Parsed::Packet { payload, rest } => {
            lemma_packets_extend(rest, b);
            assert(packets_of(a + b) == seq![payload] + packets_of(rest + b));
            assert(seq![payload] + (packets_of(rest) + packets_of(leftover(rest) + b)) =~= (
            seq![payload] + packets_of(rest)) + packets_of(leftover(rest) + b));
        },
        _ => {
            assert(packets_of(a) + packets_of(a + b) =~= packets_of(a + b));
        },
    }
}

/// The packets of several framed payloads in a row, followed by `tail`, are
/// those payloads and then the packets of `tail`.
pub proof fn lemma_packets_of_wire(payloads: Seq<Seq<u8>>, tail: Seq<u8>)
    requires
        forall|i: int| 0 <= i < payloads.len() ==> (#[trigger] payloads[i]).len() <= 32_000_000,
    ensures
        packets_of(wire(payloads) + tail) == payloads + packets_of(tail),
        leftover(wire(payloads) + tail) == leftover(tail),
    decreases payloads.len(),
{
    if payloads.len() == 0 {
        assert(wire(payloads) + tail =~= tail);
        assert(payloads + packets_of(tail) =~= packets_of(tail));
    } else {
        let first = payloads[0];
        let others = payloads.skip(1);
        let behind = wire(others) + tail;
        assert(wire(payloads) + tail =~= framed(first) + behind);
        lemma_parse_framed(first, behind);
        assert forall|i: int| 0 <= i < others.len() implies (#[trigger] others[i]).len()
            <= 32_000_000 by {
            assert(others[i] == payloads[i + 1]);
        }
        lemma_packets_of_wire(others, tail);
        assert(seq![first] + (others + packets_of(tail)) =~= payloads + packets_of(tail));
    }
}

/// Feeding a stream chunk by chunk, and taking every whole packet after each
/// chunk, gives the packets of the stream taken at once.
pub proof fn lemma_delivered(held: Seq<u8>, chunks: Seq<Seq<u8>>)
    requires
        !(parse(held) is Packet),
    ensures
        delivered(held, chunks) == packets_of(held + concat(chunks)),
    decreases chunks.len(),
{
    if chunks.len() == 0 {
        assert(held + concat(chunks) =~= held);
    } else {
        let now = held + chunks[0];
        let later = concat(chunks.skip(1));
        lemma_leftover_is_drained(now);
        lemma_delivered(leftover(now), chunks.skip(1));
        lemma_packets_extend(now, later);
        assert(held + concat(chunks) =~= now + later);
    }
}

/// However the bytes of a row of packets are cut into chunks, a receiver that
/// starts empty and is fed the chunks one at a time hands out exactly the
/// payloads that were sent, in order.
pub proof fn lemma_chunking_is_invisible(payloads: Seq<Seq<u8>>, chunks: Seq<Seq<u8>>)
    requires
        forall|i: int| 0 <= i < payloads.len() ==> (#[trigger] payloads[i]).len() <= 32_000_000,
        concat(chunks) == wire(payloads),
    ensures
        delivered(Seq::empty(), chunks) == payloads,
{
    let nothing = Seq::<u8>::empty();
    lemma_delivered(nothing, chunks);
    assert(nothing + concat(chunks) =~= wire(payloads) + nothing);
    lemma_packets_of_wire(payloads, nothing);
    assert(payloads + packets_of(nothing) =~= payloads);
}

/// A whole header with the right magic and another version is refused as a
/// version mismatch, whatever length it declares and whatever follows it.
pub proof fn lemma_version_gate(buf: Seq<u8>)
    requires
        buf.len() >= 12,
        magic_matches(buf),
        declared_version(buf) != local_version(),
    ensures
        parse(buf) == Parsed::Refused(
            ProtocolError::VersionMismatch {
                local: local_version(),
                remote: declared_version(buf),
            },
        ),
{
}

/// A good header is refused as oversized exactly when it declares more than
/// 32,000,000 bytes, and then no payload byte needs to be there.
pub proof fn lemma_oversize_gate(buf: Seq<u8>)
    requires
        buf.len() >= 12,
        magic_matches(buf),
        declared_version(buf) == local_version(),
    ensures
        declared_len(buf) > 32_000_000 <==> parse(buf) == Parsed::Refused(
            ProtocolError::OversizedPacket { length: declared_len(buf) as u32 },
        ),
        declared_len(buf) <= 32_000_000 && buf.len() >= 12 + declared_len(buf) ==> parse(buf)
            is Packet,
{
}

} // verus!
