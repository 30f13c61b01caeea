use eterm::codec::{CodecError, CodecStage};
use eterm::endpoint::{TcpEndpoint, WriteAction, WriteOutcome, WRITE_RETRY_MILLIS};
use eterm::protocol::{encode_header, ProtocolError, Version};
use eterm::Error;

fn framed(payload: &[u8]) -> Vec<u8> {
    let mut endpoint = TcpEndpoint::new();
    endpoint.send_packet(payload);
    endpoint.pending_output().to_vec()
}

fn header_declaring(length: u32) -> Vec<u8> {
    let mut header = encode_header(0);
    header[8..].copy_from_slice(&length.to_le_bytes());
    header
}

#[test]
fn new_endpoint_is_empty() {
    let mut endpoint = TcpEndpoint::new();
    assert_eq!(endpoint.received_len(), 0);
    assert!(endpoint.pending_output().is_empty());
    assert_eq!(endpoint.try_receive_packet(), Ok(None));
}

#[test]
fn send_packet_writes_header_length_payload() {
    assert_eq!(
        framed(b"abc"),
        vec![b'e', b't', b'e', b'r', b'm', 0, 0, 1, 3, 0, 0, 0, b'a', b'b', b'c']
    );
    assert_eq!(framed(b""), vec![b'e', b't', b'e', b'r', b'm', 0, 0, 1, 0, 0, 0, 0]);
}

#[test]
fn send_packet_queues_in_order() {
    let mut endpoint = TcpEndpoint::new();
    endpoint.send_packet(b"one");
    endpoint.send_packet(b"three");
    let mut expected = framed(b"one");
    expected.extend(framed(b"three"));
    assert_eq!(endpoint.pending_output(), &expected[..]);
}

#[test]
fn receives_what_was_sent() {
    let mut endpoint = TcpEndpoint::new();
    endpoint.feed(&framed(b"hello"));
    assert_eq!(endpoint.try_receive_packet(), Ok(Some(b"hello".to_vec())));
    assert_eq!(endpoint.received_len(), 0);
    assert_eq!(endpoint.try_receive_packet(), Ok(None));
}

#[test]
fn partial_header_takes_nothing() {
    let wire = framed(b"hello");
    let mut endpoint = TcpEndpoint::new();
    endpoint.feed(&wire[..11]);
    assert_eq!(endpoint.try_receive_packet(), Ok(None));
    assert_eq!(endpoint.received_len(), 11);
}

#[test]
fn partial_payload_takes_nothing() {
    let wire = framed(b"hello");
    let mut endpoint = TcpEndpoint::new();
    endpoint.feed(&wire[..wire.len() - 1]);
    assert_eq!(endpoint.try_receive_packet(), Ok(None));
    assert_eq!(endpoint.received_len(), wire.len() - 1);
    endpoint.feed(&wire[wire.len() - 1..]);
    assert_eq!(endpoint.try_receive_packet(), Ok(Some(b"hello".to_vec())));
}

#[test]
fn bytes_behind_a_packet_are_left() {
    let mut wire = framed(b"first");
    wire.extend(&framed(b"second")[..5]);
    let mut endpoint = TcpEndpoint::new();
    endpoint.feed(&wire);
    assert_eq!(endpoint.try_receive_packet(), Ok(Some(b"first".to_vec())));
    assert_eq!(endpoint.received_len(), 5);
    assert_eq!(endpoint.try_receive_packet(), Ok(None));
}

#[test]
fn wrong_magic_is_refused_again_and_again() {
    let mut endpoint = TcpEndpoint::new();
    endpoint.feed(b"GET / HTTP/1.1\r\n\r\n");
    assert_eq!(
        endpoint.try_receive_packet(),
        Err(ProtocolError::NotThisProtocol)
    );
    assert_eq!(endpoint.received_len(), 18);
    assert_eq!(
        endpoint.try_receive_packet(),
        Err(ProtocolError::NotThisProtocol)
    );
}

#[test]
fn version_gate() {
    let local = Version {
        major: 0,
        minor: 0,
        patch: 1,
    };
    for (place, value) in [(5usize, 1u8), (6, 1), (7, 0), (7, 2), (5, 255)] {
        let mut wire = framed(b"well formed");
        wire[place] = value;
        let remote = Version {
            major: wire[5],
            minor: wire[6],
            patch: wire[7],
        };
        let mut endpoint = TcpEndpoint::new();
        endpoint.feed(&wire);
        assert_eq!(
            endpoint.try_receive_packet(),
            Err(ProtocolError::VersionMismatch { local, remote })
        );
        assert_eq!(endpoint.received_len(), wire.len());
    }
}

#[test]
fn oversize_is_refused_before_any_payload() {
    let mut endpoint = TcpEndpoint::new();
    endpoint.feed(&header_declaring(32_000_001));
    assert_eq!(
        endpoint.try_receive_packet(),
        Err(ProtocolError::OversizedPacket { length: 32_000_001 })
    );
    assert_eq!(endpoint.received_len(), 12);
}

#[test]
fn largest_packet_is_accepted() {
    let payload = vec![7u8; 32_000_000];
    let mut endpoint = TcpEndpoint::new();
    endpoint.feed(&header_declaring(32_000_000));
    assert_eq!(endpoint.try_receive_packet(), Ok(None));
    endpoint.feed(&payload);
    let packet = endpoint.try_receive_packet().unwrap().unwrap();
    assert_eq!(packet.len(), 32_000_000);
    assert!(packet == payload);
    assert_eq!(endpoint.received_len(), 0);
}

fn payloads() -> Vec<Vec<u8>> {
    vec![
        b"a".to_vec(),
        Vec::new(),
        (0..=255u8).collect(),
        b"eterm".to_vec(),
        vec![0; 1000],
        encode_header(3),
    ]
}

fn wire_of(payloads: &[Vec<u8>]) -> Vec<u8> {
    let mut endpoint = TcpEndpoint::new();
    for payload in payloads {
        endpoint.send_packet(payload);
    }
    endpoint.pending_output().to_vec()
}

fn deliver_in_chunks(wire: &[u8], chunk_len: usize) -> Vec<Vec<u8>> {
    let mut endpoint = TcpEndpoint::new();
    let mut delivered = Vec::new();
    for chunk in wire.chunks(chunk_len) {
        endpoint.feed(chunk);
        while let Some(packet) = endpoint.try_receive_packet().unwrap() {
            delivered.push(packet);
        }
    }
    assert_eq!(endpoint.received_len(), 0);
    delivered
}

#[test]
fn chunking_does_not_show() {
    let sent = payloads();
    let wire = wire_of(&sent);
    for chunk_len in [1, 2, 3, 5, 11, 12, 13, 64, 1000, wire.len()] {
        assert_eq!(deliver_in_chunks(&wire, chunk_len), sent);
    }
}

#[test]
fn uneven_chunks_do_not_show() {
    let sent = payloads();
    let wire = wire_of(&sent);
    let mut endpoint = TcpEndpoint::new();
    let mut delivered = Vec::new();
    let mut at = 0;
    let mut step = 1;
    while at < wire.len() {
        let end = (at + step).min(wire.len());
        endpoint.feed(&wire[at..end]);
        let (packets, stopped) = endpoint.receive_packets();
        assert_eq!(stopped, None);
        delivered.extend(packets);
        at = end;
        step = step * 3 % 17 + 1;
    }
    assert_eq!(delivered, sent);
}

#[test]
fn receive_packets_takes_all_that_is_whole() {
    let sent = payloads();
    let mut wire = wire_of(&sent);
    wire.extend(&framed(b"cut off")[..15]);
    let mut endpoint = TcpEndpoint::new();
    endpoint.feed(&wire);
    let (packets, stopped) = endpoint.receive_packets();
    assert_eq!(packets, sent);
    assert_eq!(stopped, None);
    assert_eq!(endpoint.received_len(), 15);
}

#[test]
fn receive_packets_stops_at_a_bad_header() {
    let mut wire = framed(b"good");
    wire.extend(b"not a header at all");
    let mut endpoint = TcpEndpoint::new();
    endpoint.feed(&wire);
    let (packets, stopped) = endpoint.receive_packets();
    assert_eq!(packets, vec![b"good".to_vec()]);
    assert_eq!(stopped, Some(ProtocolError::NotThisProtocol));
    assert_eq!(endpoint.received_len(), 19);
}

#[test]
fn after_write_takes_what_was_written() {
    let mut endpoint = TcpEndpoint::new();
    endpoint.send_packet(b"abc");
    assert_eq!(
        endpoint.after_write(WriteOutcome::Wrote(12)),
        WriteAction::WriteMore
    );
    assert_eq!(endpoint.pending_output(), b"abc");
    assert_eq!(endpoint.after_write(WriteOutcome::Wrote(3)), WriteAction::Done);
    assert!(endpoint.pending_output().is_empty());
}

#[test]
fn after_write_more_than_pending_is_done() {
    let mut endpoint = TcpEndpoint::new();
    endpoint.send_packet(b"abc");
    assert_eq!(
        endpoint.after_write(WriteOutcome::Wrote(1000)),
        WriteAction::Done
    );
    assert!(endpoint.pending_output().is_empty());
}

#[test]
fn after_write_would_block_retries_later() {
    let mut endpoint = TcpEndpoint::new();
    endpoint.send_packet(b"abc");
    assert_eq!(WRITE_RETRY_MILLIS, 5);
    assert_eq!(
        endpoint.after_write(WriteOutcome::WouldBlock),
        WriteAction::RetryAfter { millis: 5 }
    );
    assert_eq!(endpoint.pending_output().len(), 15);
}

#[test]
fn after_write_failure_aborts() {
    let mut endpoint = TcpEndpoint::new();
    endpoint.send_packet(b"abc");
    assert_eq!(endpoint.after_write(WriteOutcome::Failed), WriteAction::Abort);
    assert_eq!(endpoint.after_write(WriteOutcome::Wrote(0)), WriteAction::Abort);
    assert_eq!(endpoint.pending_output().len(), 15);
}

#[test]
fn after_write_with_nothing_pending_is_done() {
    let mut endpoint = TcpEndpoint::new();
    assert_eq!(endpoint.after_write(WriteOutcome::Wrote(0)), WriteAction::Done);
}

#[test]
fn message_goes_through_compression_and_framing() {
    let serialized: Vec<u8> = (0..2000u32).flat_map(|i| (i % 7).to_le_bytes()).collect();
    let mut sender = TcpEndpoint::new();
    assert_eq!(sender.send_message(&serialized), Ok(()));
    let wire = sender.pending_output().to_vec();
    assert!(wire.len() < serialized.len());
    assert_eq!(&wire[..8], b"eterm\x00\x00\x01");

    let mut receiver = TcpEndpoint::new();
    receiver.feed(&wire[..20]);
    assert_eq!(receiver.try_receive_message(), Ok(None));
    receiver.feed(&wire[20..]);
    assert_eq!(receiver.try_receive_message(), Ok(Some(serialized)));
    assert_eq!(receiver.try_receive_message(), Ok(None));
}

#[test]
fn message_that_does_not_decompress_is_a_decoding_error() {
    let mut endpoint = TcpEndpoint::new();
    endpoint.feed(&framed(b"this is no zstd frame"));
    assert_eq!(
        endpoint.try_receive_message(),
        Err(Error::Codec(CodecError::Decoding(CodecStage::Zstd)))
    );
    // The packet itself was well formed and is gone.
    assert_eq!(endpoint.received_len(), 0);
}

#[test]
fn message_behind_a_bad_header_is_a_protocol_error() {
    let mut endpoint = TcpEndpoint::new();
    endpoint.feed(b"xterm\x00\x00\x01\x00\x00\x00\x00");
    assert_eq!(
        endpoint.try_receive_message(),
        Err(Error::Protocol(ProtocolError::NotThisProtocol))
    );
    assert_eq!(endpoint.received_len(), 12);
}

#[test]
fn wanted_counts_what_is_missing() {
    let wire = framed(b"hello");
    let mut endpoint = TcpEndpoint::new();
    assert_eq!(endpoint.wanted(), 12);
    endpoint.feed(&wire[..5]);
    assert_eq!(endpoint.wanted(), 7);
    endpoint.feed(&wire[5..12]);
    assert_eq!(endpoint.wanted(), 5);
    endpoint.feed(&wire[12..16]);
    assert_eq!(endpoint.wanted(), 1);
    endpoint.feed(&wire[16..]);
    assert_eq!(endpoint.wanted(), 0);
    assert_eq!(endpoint.try_receive_packet(), Ok(Some(b"hello".to_vec())));
    assert_eq!(endpoint.wanted(), 12);
}

#[test]
fn nothing_is_wanted_behind_a_refused_header() {
    let mut endpoint = TcpEndpoint::new();
    endpoint.feed(&header_declaring(32_000_001));
    assert_eq!(endpoint.wanted(), 0);
    let mut endpoint = TcpEndpoint::new();
    endpoint.feed(b"HTTP/1.1 200 OK");
    assert_eq!(endpoint.wanted(), 0);
}

#[test]
fn the_largest_packet_is_the_most_that_is_wanted() {
    let mut endpoint = TcpEndpoint::new();
    endpoint.feed(&header_declaring(32_000_000));
    assert_eq!(endpoint.wanted(), 32_000_000);
}

#[test]
fn reading_only_what_is_wanted_delivers_everything() {
    let sent = payloads();
    let wire = wire_of(&sent);
    let mut endpoint = TcpEndpoint::new();
    let mut delivered = Vec::new();
    let mut at = 0;
    loop {
        let wanted = endpoint.wanted();
        if wanted == 0 {
            delivered.push(endpoint.try_receive_packet().unwrap().unwrap());
            continue;
        }
        if at == wire.len() {
            break;
        }
        let end = (at + wanted.min(100)).min(wire.len());
        endpoint.feed(&wire[at..end]);
        assert!(endpoint.received_len() <= 12 + 1000);
        at = end;
    }
    assert_eq!(delivered, sent);
}
