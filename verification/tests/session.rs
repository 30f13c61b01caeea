use bincode::Options;
use egui::{Event, PlatformOutput, RawInput};
use eterm::endpoint::TcpEndpoint;
use eterm::history::Ratio;
use eterm::server::{PeerAddr, Received};
use eterm::{Client, ClientToServerMessage, Server, ServerToClientMessage};

const SECOND: u64 = 1_000_000;

/// The viewer's input as it would travel: the tag of the variant, the input,
/// the stamp in seconds.
fn serialize_input(message: &ClientToServerMessage) -> Vec<u8> {
    match message {
        ClientToServerMessage::Input {
            raw_input,
            client_time,
        } => bincode::options()
            .serialize(&(0u32, raw_input, *client_time as f64 / 1e6))
            .unwrap(),
        ClientToServerMessage::Goodbye => bincode::options().serialize(&1u32).unwrap(),
    }
}

fn deserialize_input(serialized: &[u8]) -> ClientToServerMessage {
    let (_, raw_input, seconds): (u32, RawInput, f64) =
        bincode::options().deserialize(serialized).unwrap();
    ClientToServerMessage::Input {
        raw_input,
        client_time: (seconds * 1e6).round() as u64,
    }
}

/// The host's frame as it would travel.
fn serialize_frame(message: &ServerToClientMessage<u32>) -> Vec<u8> {
    match message {
        ServerToClientMessage::Frame {
            frame_index,
            platform_output,
            clipped_net_shapes,
            client_time,
        } => bincode::options()
            .serialize(&(
                1u32,
                *frame_index,
                platform_output,
                clipped_net_shapes,
                client_time.map(|micros| micros as f64 / 1e6),
            ))
            .unwrap(),
        ServerToClientMessage::Fonts { .. } => panic!("a frame was to be sent"),
    }
}

fn deserialize_frame(serialized: &[u8]) -> (u64, PlatformOutput, Vec<u32>, Option<u64>) {
    let (_, frame_index, platform_output, shapes, seconds): (
        u32,
        u64,
        PlatformOutput,
        Vec<u32>,
        Option<f64>,
    ) = bincode::options().deserialize(serialized).unwrap();
    (
        frame_index,
        platform_output,
        shapes,
        seconds.map(|seconds| (seconds * 1e6).round() as u64),
    )
}

/// Moves what one side has to write into the other side, a few bytes at a time.
fn carry(bytes: &[u8], mut feed: impl FnMut(&[u8])) {
    for chunk in bytes.chunks(7) {
        feed(chunk);
    }
}

#[test]
fn end_to_end() {
    let mut server: Server<u32> = Server::new();
    let place = server.accept(
        PeerAddr::V4 {
            octets: 0x0a00_0002,
            port: 40_000,
        },
        1000 * SECOND,
    );
    let interval = server.minimum_update_interval();
    let mut viewer = Client::new("10.0.0.1:8505".to_owned());
    let mut viewer_endpoint = TcpEndpoint::new();

    // The viewer sends input, stamped at 5.0 s.
    let input = RawInput {
        events: vec![Event::Text("hi".to_owned())],
        ..Default::default()
    };
    let message = viewer.send_input(input.clone(), 5 * SECOND);
    viewer_endpoint
        .send_message(&serialize_input(&message))
        .unwrap();
    let to_host = viewer_endpoint.pending_output().to_vec();
    viewer_endpoint.after_write(eterm::endpoint::WriteOutcome::Wrote(to_host.len()));

    // The host receives and merges it.
    let session = server.client_mut(place);
    carry(&to_host, |chunk| session.feed(chunk));
    match session.try_receive() {
        Received::Message(serialized) => {
            assert!(session.on_message(deserialize_input(&serialized)));
        }
        _ => panic!("the input should have arrived"),
    }
    assert!(matches!(session.try_receive(), Received::Nothing));

    // The host renders and sends frame 0, echoing the stamp.
    let pass = session.begin_show(1001 * SECOND, interval).unwrap();
    assert_eq!(pass.input, input);
    assert_eq!(pass.client_time, Some(5 * SECOND));
    let shapes = vec![11, 22, 33];
    let frame = session
        .end_show(
            1001 * SECOND,
            pass.client_time,
            PlatformOutput::default(),
            shapes.clone(),
            false,
        )
        .unwrap();
    session.send_message(&serialize_frame(&frame));
    let to_viewer = session.pending_output().unwrap().to_vec();
    session.after_write(eterm::endpoint::WriteOutcome::Wrote(to_viewer.len()));

    // The viewer receives the frame at 5.02 s.
    let now = 5 * SECOND + 20_000;
    carry(&to_viewer, |chunk| viewer_endpoint.feed(chunk));
    let packet = viewer_endpoint.try_receive_packet().unwrap().unwrap();
    let serialized = viewer.on_packet(now, &packet).unwrap();
    viewer.on_frame_packet(now, packet.len());
    let (frame_index, platform_output, received_shapes, client_time) =
        deserialize_frame(&serialized);
    assert_eq!(frame_index, 0);
    assert_eq!(received_shapes, shapes);
    assert_eq!(client_time, Some(5 * SECOND));
    viewer.on_frame(now, frame_index, platform_output, Vec::new(), client_time);

    // One sample each for the frame rate and the latency.
    assert_eq!(
        viewer.latency(0),
        Some(Ratio {
            numerator: 20_000,
            denominator: 1_000_000
        })
    );
    assert_eq!(viewer.adaptive_fps(0), None);
    assert_eq!(
        viewer.average_frame_packet_size(0),
        Some(Ratio {
            numerator: packet.len() as u128,
            denominator: 1
        })
    );
    assert_eq!(viewer.update(now).unwrap().frame_index, 0);

    // A second tick without new input sends nothing for a whole interval ...
    let session = server.client_mut(place);
    assert!(session.begin_show(1001 * SECOND + 16_000, interval).is_none());
    assert!(session.begin_show(1001 * SECOND + interval, interval).is_none());
    assert_eq!(session.pending_output(), Some(&[][..]));

    // ... and nothing after it either, while the output stays the same.
    let pass = session.begin_show(1001 * SECOND + interval + 1, interval).unwrap();
    assert_eq!(pass.client_time, None);
    assert!(session
        .end_show(
            1001 * SECOND + interval + 1,
            pass.client_time,
            PlatformOutput::default(),
            shapes,
            false,
        )
        .is_none());
    assert_eq!(session.frame_index(), 1);
    assert_eq!(session.pending_output(), Some(&[][..]));
}
