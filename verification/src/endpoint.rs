//! One end of a connection: the bytes that have arrived and are not yet taken
//! as packets, and the bytes that are framed and not yet written.
//!
//! The socket itself stays with the caller, who reads what the peer sent into
//! [`TcpEndpoint::feed`], no more at a time than [`TcpEndpoint::wanted`] asks
//! for, and writes what [`TcpEndpoint::pending_output`] shows. Nothing leaves
//! the received bytes before a whole packet is there, so a frame that has
//! arrived by half never puts the stream out of step.

use crate::codec::{
    decode_message, encode_message, zstd_content, zstd_frame, zstd_readable, zstd_writable,
    CodecError, CodecStage,
};
use crate::error::Error;
use crate::protocol::{
    check_header, declared_len, encode_header, framed, leftover, packets_of, parse, HeaderCheck,
    Parsed, ProtocolError, HEADER_LEN,
};
use vstd::prelude::*;

verus! {

/// How long to wait before writing again when the socket would block.
pub const WRITE_RETRY_MILLIS: u64 = 5;

/// What a non-blocking write on the socket came to.
#[derive(Clone, Copy, Debug, PartialEq, Eq, Structural)]
pub enum WriteOutcome {
    /// The socket took this many bytes from the front of the pending output.
    Wrote(usize),
    /// The socket can take nothing at the moment.
    WouldBlock,
    /// The socket reported any other error.
    Failed,
}

/// What the caller does after a write.
#[derive(Clone, Copy, Debug, PartialEq, Eq, Structural)]
pub enum WriteAction {
    /// Nothing is left to write.
    Done,
    /// Write what is still pending, at once.
    WriteMore,
    /// Sleep this long, then write what is pending.
    RetryAfter { millis: u64 },
    /// Give the connection up.
    Abort,
}

/// The pending output after a write, given the pending output before it.
pub open spec fn unsent_after(unsent: Seq<u8>, outcome: WriteOutcome) -> Seq<u8> {
    match outcome {
        WriteOutcome::Wrote(n) => if n >= unsent.len() {
            Seq::empty()
        } else {
            unsent.skip(n as int)
        },
        _ => unsent,
    }
}

/// What to do after a write, given the pending output before it. A write that
/// took nothing although bytes were pending counts as a failure.
pub open spec fn action_after(unsent: Seq<u8>, outcome: WriteOutcome) -> WriteAction {
    match outcome {
        WriteOutcome::Wrote(n) => if n >= unsent.len() {
            WriteAction::Done
        } else if n == 0 {
            WriteAction::Abort
        } else {
            WriteAction::WriteMore
        },
        WriteOutcome::WouldBlock => WriteAction::RetryAfter { millis: 5 },
        WriteOutcome::Failed => WriteAction::Abort,
    }
}

/// How many bytes are still missing before the start of `buf` can be judged
/// further: the rest of the header, or the rest of the payload that a good
/// header declares. Zero where a packet is whole or the header is refused.
pub open spec fn missing(buf: Seq<u8>) -> nat {
    if buf.len() < 12 {
        (12 - buf.len()) as nat
    } else {
        match parse(buf) {
            Parsed::NotYet => (12 + declared_len(buf) - buf.len()) as nat,
            _ => 0,
        }
    }
}

/// While bytes are missing nothing can be taken; and a receiver that takes in
/// no more than is missing never holds more than one header and the largest
/// payload, whatever the peer declares.
pub proof fn lemma_missing_bounds_what_is_held(buf: Seq<u8>, chunk: Seq<u8>)
    requires
        chunk.len() <= missing(buf),
    ensures
        missing(buf) > 0 ==> parse(buf) is NotYet,
        missing(buf) > 0 ==> buf.len() + missing(buf) <= 32_000_012,
        buf.len() <= 32_000_012 ==> (buf + chunk).len() <= 32_000_012,
{
}

/// The payloads that a list of packets holds.
pub open spec fn payloads_of(packets: Seq<Vec<u8>>) -> Seq<Seq<u8>> {
    packets.map_values(|p: Vec<u8>| p@)
}

/// The protocol state of one end of a reliable, ordered byte stream.
pub struct TcpEndpoint {
    incoming: Vec<u8>,
    outgoing: Vec<u8>,
}

impl TcpEndpoint {
    /// The bytes that arrived and were not yet handed out in a packet.
    pub closed spec fn received(&self) -> Seq<u8> {
        self.incoming@
    }

    /// The bytes that were framed for sending and not yet written.
    pub closed spec fn unsent(&self) -> Seq<u8> {
        self.outgoing@
    }

    /// An endpoint on which nothing has arrived and nothing waits to be written.
    pub fn new() -> (endpoint: Self)
        ensures
            endpoint.received() == Seq::<u8>::empty(),
            endpoint.unsent() == Seq::<u8>::empty(),
    {
        TcpEndpoint { incoming: Vec::new(), outgoing: Vec::new() }
    }

    /// Takes in bytes that the peer sent, in the order in which they came.
    pub fn feed(&mut self, chunk: &[u8])
        ensures
            final(self).received() == old(self).received() + chunk@,
            final(self).unsent() == old(self).unsent(),
    {
        append_bytes(&mut self.incoming, chunk);
    }

    /// How many bytes have arrived and are not yet handed out.
    pub fn received_len(&self) -> (n: usize)
        ensures
            n == self.received().len(),
    {
        self.incoming.len()
    }

    /// How many bytes to read from the socket, at most, before looking for a
    /// packet again: what is missing of the header, or of the payload that
    /// the header declares. A caller who reads no more than this holds no
    /// more of the peer's bytes than one header and the largest payload.
    pub fn wanted(&self) -> (n: usize)
        ensures
            n == missing(self.received()),
    {
        let held: usize = self.incoming.len();
        if held < HEADER_LEN {
            HEADER_LEN - held
        } else {
            match check_header(self.incoming.as_slice()) {
                HeaderCheck::Accepted { payload_len } => {
                    let total: usize = HEADER_LEN + payload_len as usize;
                    if held < total {
                        total - held
                    } else {
                        0
                    }
                },
                _ => 0,
            }
        }
    }

    /// Hands out the next packet's payload if all of it has arrived.
    ///
    /// Returns `Ok(None)`, and takes nothing, while the header or the payload
    /// is still incomplete. Fails, and takes nothing, as soon as a whole header
    /// is there that has the wrong magic, another version, or a declared length
    /// above the limit; the same error comes again on every later call.
    pub fn try_receive_packet(&mut self) -> (res: Result<Option<Vec<u8>>, ProtocolError>)
        ensures
            final(self).unsent() == old(self).unsent(),
            match parse(old(self).received()) {
                Parsed::NotYet => res == Ok::<Option<Vec<u8>>, ProtocolError>(None)
                    && final(self).received() == old(self).received(),
                Parsed::Refused(e) => res == Err::<Option<Vec<u8>>, ProtocolError>(e)
                    && final(self).received() == old(self).received(),
                Parsed::Packet { payload, rest } => res matches Ok(Some(p)) && p@ == payload
                    && final(self).received() == rest,
            },
    {
        match check_header(self.incoming.as_slice()) {
            HeaderCheck::Incomplete => Ok(None),
            HeaderCheck::Refused(e) => Err(e),
            HeaderCheck::Accepted { payload_len } => {
                let total: usize = HEADER_LEN + payload_len as usize;
                if self.incoming.len() < total {
                    Ok(None)
                } else {
                    let ghost before = self.incoming@;
                    let rest = self.incoming.split_off(total);
                    let payload = self.incoming.split_off(HEADER_LEN);
                    self.incoming = rest;
                    assert(payload@ =~= before.subrange(12, total as int));
                    assert(self.incoming@ =~= before.skip(total as int));
                    Ok(Some(payload))
                }
            },
        }
    }

    /// Hands out every packet that has wholly arrived, in order, and says why
    /// it stopped: `None` when the next packet is not yet whole, the error when
    /// the next header cannot be accepted.
    pub fn receive_packets(&mut self) -> (res: (Vec<Vec<u8>>, Option<ProtocolError>))
        ensures
            final(self).unsent() == old(self).unsent(),
            payloads_of(res.0@) == packets_of(old(self).received()),
            final(self).received() == leftover(old(self).received()),
            match parse(final(self).received()) {
                Parsed::NotYet => res.1 is None,
                Parsed::Refused(e) => res.1 == Some(e),
                Parsed::Packet { .. } => false,
            },
    {
        let mut packets: Vec<Vec<u8>> = Vec::new();
        let mut stopped: Option<ProtocolError> = None;
        let mut more: bool = true;
        assert(payloads_of(packets@) =~= Seq::<Seq<u8>>::empty());
        while more
            invariant
                self.unsent() == old(self).unsent(),
                packets_of(old(self).received()) == payloads_of(packets@) + packets_of(
                    self.received(),
                ),
                more ==> stopped is None,
                leftover(old(self).received()) == leftover(self.received()),
                !more ==> match parse(self.received()) {
                    Parsed::NotYet => stopped is None,
                    Parsed::Refused(e) => stopped == Some(e),
                    Parsed::Packet { .. } => false,
                },
            decreases self.received().len(), (if more { 1int } else { 0int }),
        {
            let ghost taken = payloads_of(packets@);
            match self.try_receive_packet() {
                Ok(Some(payload)) => {
                    packets.push(payload);
                    assert(payloads_of(packets@) =~= taken + seq![payload@]);
                    assert(taken + (seq![payload@] + packets_of(self.received())) =~= (taken
                        + seq![payload@]) + packets_of(self.received()));
                },
                Ok(None) => {
                    more = false;
                },
                Err(e) => {
                    stopped = Some(e);
                    more = false;
                },
            }
        }
        assert(payloads_of(packets@) + Seq::<Seq<u8>>::empty() =~= payloads_of(packets@));
        (packets, stopped)
    }

    /// Hands out the next message, decompressed and still serialized, if its
    /// packet has wholly arrived.
    ///
    /// A packet that cannot be accepted is a protocol error and stays where it
    /// is. A packet that has wholly arrived is taken, and hands out its
    /// message exactly where zstd reads its payload; else it is a decoding
    /// error.
    pub fn try_receive_message(&mut self) -> (res: Result<Option<Vec<u8>>, Error>)
        ensures
            final(self).unsent() == old(self).unsent(),
            match parse(old(self).received()) {
                Parsed::NotYet => res == Ok::<Option<Vec<u8>>, Error>(None)
                    && final(self).received() == old(self).received(),
                Parsed::Refused(e) => res == Err::<Option<Vec<u8>>, Error>(Error::Protocol(e))
                    && final(self).received() == old(self).received(),
                Parsed::Packet { payload, rest } => final(self).received() == rest && res is Ok
                    == zstd_readable(payload) && match res {
                    Ok(Some(serialized)) => serialized@ == zstd_content(payload),
                    Ok(None) => false,
                    Err(e) => e == Error::Codec(CodecError::Decoding(CodecStage::Zstd)),
                },
            },
    {
        match self.try_receive_packet() {
            Ok(None) => Ok(None),
            Err(e) => Err(Error::Protocol(e)),
            Ok(Some(packet)) => match decode_message(packet.as_slice()) {
                Ok(serialized) => Ok(Some(serialized)),
                Err(e) => Err(Error::Codec(e)),
            },
        }
    }

    /// Compresses a serialized message, frames it and puts it behind what
    /// already waits to be written. This succeeds exactly where zstd makes a
    /// frame of the message; where it does not, nothing is queued.
    pub fn send_message(&mut self, serialized: &[u8]) -> (res: Result<(), Error>)
        ensures
            final(self).received() == old(self).received(),
            res is Ok == zstd_writable(serialized@, 5),
            match res {
                Ok(_) => final(self).unsent() == old(self).unsent() + framed(
                    zstd_frame(serialized@, 5),
                ),
                Err(e) => e == Error::Codec(CodecError::Encoding(CodecStage::Zstd))
                    && final(self).unsent() == old(self).unsent(),
            },
    {
        match encode_message(serialized) {
            Ok(packet) => {
                self.send_packet(packet.as_slice());
                Ok(())
            },
            Err(e) => Err(Error::Codec(e)),
        }
    }

    /// Frames a payload and puts it behind what already waits to be written.
    pub fn send_packet(&mut self, packet: &[u8])
        ensures
            final(self).unsent() == old(self).unsent() + framed(packet@),
            final(self).received() == old(self).received(),
    {
        let ghost before = self.outgoing@;
        let header = encode_header(packet.len());
        append_bytes(&mut self.outgoing, header.as_slice());
        append_bytes(&mut self.outgoing, packet);
        assert(self.outgoing@ =~= before + framed(packet@));
    }

    /// The bytes to write to the socket next, oldest first.
    pub fn pending_output(&self) -> (out: &[u8])
        ensures
            out@ == self.unsent(),
    {
        self.outgoing.as_slice()
    }

    /// Records what a write of the pending output came to and says what to do
    /// next: the bytes that the socket took leave the pending output; a socket
    /// that would block is tried again after [`WRITE_RETRY_MILLIS`]; any other
    /// error, or a write that took nothing, ends the connection.
    pub fn after_write(&mut self, outcome: WriteOutcome) -> (action: WriteAction)
        ensures
            final(self).unsent() == unsent_after(old(self).unsent(), outcome),
            action == action_after(old(self).unsent(), outcome),
            final(self).received() == old(self).received(),
            action == WriteAction::WriteMore ==> final(self).unsent().len() < old(
                self,
            ).unsent().len(),
    {
        match outcome {
            WriteOutcome::Wrote(n) => {
                if n >= self.outgoing.len() {
                    self.outgoing.clear();
                    WriteAction::Done
                } else if n == 0 {
                    WriteAction::Abort
                } else {
                    let ghost before = self.outgoing@;
                    let rest = self.outgoing.split_off(n);
                    self.outgoing = rest;
                    assert(self.outgoing@ =~= before.skip(n as int));
                    WriteAction::WriteMore
                }
            },
            WriteOutcome::WouldBlock => WriteAction::RetryAfter { millis: WRITE_RETRY_MILLIS },
            WriteOutcome::Failed => WriteAction::Abort,
        }
    }
}

/// Puts a copy of `bytes` behind `buf`.
fn append_bytes(buf: &mut Vec<u8>, bytes: &[u8])
    ensures
        final(buf)@ == old(buf)@ + bytes@,
{
    buf.extend_from_slice(bytes);
    assert(buf@ =~= old(buf)@ + bytes@);
}

} // verus!
