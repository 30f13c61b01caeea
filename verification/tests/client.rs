use egui::{PlatformOutput, RawInput};
use eterm::client::{
    ConnectionAction, ConnectionEvent, POLL_INTERVAL_MILLIS, RECONNECT_DELAY_MILLIS,
};
use eterm::codec::{encode_message, CodecError, CodecStage};
use eterm::history::Ratio;
use eterm::{Client, ClientToServerMessage, ServerToClientMessage};

const SECOND: u64 = 1_000_000;

fn client() -> Client {
    Client::new("127.0.0.1:8580".to_owned())
}

fn connected() -> Client {
    let mut client = client();
    client.on_event(ConnectionEvent::Wake);
    client.on_event(ConnectionEvent::ConnectSucceeded);
    client
}

#[test]
fn new_client() {
    let mut client = client();
    assert_eq!(client.addr(), "127.0.0.1:8580");
    assert!(!client.is_connected());
    assert_eq!(
        client.bytes_per_second(0),
        Ratio {
            numerator: 0,
            denominator: 1
        }
    );
    assert_eq!(client.average_frame_packet_size(0), None);
    assert_eq!(client.latency(0), None);
    assert_eq!(client.adaptive_fps(0), None);
}

#[test]
fn worker_connects_when_it_wakes() {
    let mut client = client();
    assert_eq!(
        client.on_event(ConnectionEvent::Wake),
        ConnectionAction::Connect
    );
    assert!(!client.is_connected());
    assert_eq!(
        client.on_event(ConnectionEvent::ConnectSucceeded),
        ConnectionAction::Poll
    );
    assert!(client.is_connected());
}

#[test]
fn failed_connect_waits_a_second() {
    let mut client = client();
    client.on_event(ConnectionEvent::Wake);
    assert_eq!(RECONNECT_DELAY_MILLIS, 1000);
    assert_eq!(
        client.on_event(ConnectionEvent::ConnectFailed),
        ConnectionAction::SleepThenWake { millis: 1000 }
    );
    assert!(!client.is_connected());
    // The wait does not grow.
    for _ in 0..5 {
        assert_eq!(
            client.on_event(ConnectionEvent::Wake),
            ConnectionAction::Connect
        );
        assert_eq!(
            client.on_event(ConnectionEvent::ConnectFailed),
            ConnectionAction::SleepThenWake { millis: 1000 }
        );
    }
}

#[test]
fn connected_worker_polls_every_five_milliseconds() {
    let mut client = connected();
    assert_eq!(POLL_INTERVAL_MILLIS, 5);
    for _ in 0..3 {
        assert_eq!(
            client.on_event(ConnectionEvent::Polled),
            ConnectionAction::SleepThenPoll { millis: 5 }
        );
        assert!(client.is_connected());
    }
}

#[test]
fn lost_connection_is_made_again_at_once() {
    let mut client = connected();
    assert_eq!(
        client.on_event(ConnectionEvent::ConnectionLost),
        ConnectionAction::WakeNow
    );
    assert!(!client.is_connected());
    assert_eq!(
        client.on_event(ConnectionEvent::Wake),
        ConnectionAction::Connect
    );
}

#[test]
fn torn_down_session_ends_its_worker() {
    let mut client = connected();
    client.shut_down();
    // The worker finds out when the queue's sender is gone.
    assert!(client.is_connected());
    assert_eq!(
        client.on_event(ConnectionEvent::SenderDropped),
        ConnectionAction::WakeNow
    );
    assert!(!client.is_connected());
    assert_eq!(client.on_event(ConnectionEvent::Wake), ConnectionAction::Exit);
    assert_eq!(client.on_event(ConnectionEvent::Wake), ConnectionAction::Exit);
}

#[test]
fn torn_down_before_the_first_connect() {
    let mut client = client();
    client.shut_down();
    assert_eq!(client.on_event(ConnectionEvent::Wake), ConnectionAction::Exit);
}

#[test]
fn events_out_of_place_change_nothing() {
    let mut client = client();
    for event in [
        ConnectionEvent::ConnectSucceeded,
        ConnectionEvent::ConnectFailed,
        ConnectionEvent::Polled,
        ConnectionEvent::ConnectionLost,
        ConnectionEvent::SenderDropped,
    ] {
        assert_eq!(client.on_event(event), ConnectionAction::Ignore);
        assert!(!client.is_connected());
    }
    let mut client = connected();
    for event in [
        ConnectionEvent::Wake,
        ConnectionEvent::ConnectSucceeded,
        ConnectionEvent::ConnectFailed,
    ] {
        assert_eq!(client.on_event(event), ConnectionAction::Ignore);
        assert!(client.is_connected());
    }
}

#[test]
fn send_input_stamps_the_time() {
    let client = client();
    let raw_input = RawInput {
        pixels_per_point: Some(1.5),
        ..Default::default()
    };
    match client.send_input(raw_input.clone(), 5 * SECOND) {
        ClientToServerMessage::Input {
            raw_input: sent,
            client_time,
        } => {
            assert_eq!(sent, raw_input);
            assert_eq!(client_time, 5 * SECOND);
        }
        ClientToServerMessage::Goodbye => panic!("input was to be sent"),
    }
}

#[test]
fn latency_measurement() {
    // Stamped at 100.0 s, answered at 100.05 s: 0.05 s.
    let mut client = connected();
    client.on_frame(
        100_050_000,
        0,
        PlatformOutput::default(),
        Vec::new(),
        Some(100_000_000),
    );
    let latency = client.latency(0).unwrap();
    assert_eq!(
        latency,
        Ratio {
            numerator: 50_000,
            denominator: 1_000_000
        }
    );
    let seconds = latency.numerator as f64 / latency.denominator as f64;
    assert!((seconds - 0.05).abs() < 1e-9);
}

#[test]
fn latency_is_the_mean_of_the_round_trips() {
    let mut client = connected();
    for (now, sent) in [(1_000, 0), (3_000, 1_000), (10_000, 4_000)] {
        client.on_frame(now, 0, PlatformOutput::default(), Vec::new(), Some(sent));
    }
    assert_eq!(
        client.latency(0),
        Some(Ratio {
            numerator: 9_000,
            denominator: 3_000_000
        })
    );
}

#[test]
fn frame_without_echo_is_no_latency_sample() {
    let mut client = connected();
    client.on_frame(SECOND, 0, PlatformOutput::default(), Vec::new(), None);
    assert_eq!(client.latency(0), None);
}

#[test]
fn echo_from_the_future_counts_as_no_delay() {
    let mut client = connected();
    client.on_frame(SECOND, 0, PlatformOutput::default(), Vec::new(), Some(2 * SECOND));
    assert_eq!(
        client.latency(0),
        Some(Ratio {
            numerator: 0,
            denominator: 1_000_000
        })
    );
}

#[test]
fn adaptive_fps_counts_frames_per_second() {
    let mut client = connected();
    client.on_frame(10 * SECOND, 0, PlatformOutput::default(), Vec::new(), None);
    assert_eq!(client.adaptive_fps(0), None);
    client.on_frame(10 * SECOND + 100_000, 1, PlatformOutput::default(), Vec::new(), None);
    client.on_frame(10 * SECOND + 200_000, 2, PlatformOutput::default(), Vec::new(), None);
    assert_eq!(
        client.adaptive_fps(0),
        Some(Ratio {
            numerator: 3_000_000,
            denominator: 200_000
        })
    );
}

#[test]
fn update_hands_out_the_newest_frame_once() {
    let mut client = connected();
    assert!(client.update(SECOND).is_none());
    let first = PlatformOutput {
        copied_text: "first".to_owned(),
        ..Default::default()
    };
    let second = PlatformOutput {
        open_url: Some(egui::output::OpenUrl::same_tab("http://example.org")),
        ..Default::default()
    };
    client.on_frame(SECOND, 4, first, Vec::new(), None);
    client.on_frame(SECOND + 1, 5, second, Vec::new(), None);
    let frame = client.update(SECOND + 2).unwrap();
    assert_eq!(frame.frame_index, 5);
    assert!(frame.clipped_meshes.is_empty());
    // The output of both frames is there.
    assert_eq!(frame.platform_output.copied_text, "first");
    assert!(frame.platform_output.open_url.is_some());
    assert!(client.update(SECOND + 3).is_none());
}

#[test]
fn update_lets_old_samples_go() {
    let mut client = connected();
    for i in 0..5 {
        client.on_frame(i * 100_000, i, PlatformOutput::default(), Vec::new(), Some(0));
    }
    assert_eq!(
        client.adaptive_fps(0),
        Some(Ratio {
            numerator: 5_000_000,
            denominator: 400_000
        })
    );
    client.update(60 * SECOND);
    // The frame history keeps two samples, the latency history one.
    assert_eq!(
        client.adaptive_fps(0),
        Some(Ratio {
            numerator: 2_000_000,
            denominator: 100_000
        })
    );
    assert_eq!(
        client.latency(0),
        Some(Ratio {
            numerator: 400_000,
            denominator: 1_000_000
        })
    );
}

#[test]
fn packets_count_towards_bandwidth() {
    let mut client = connected();
    let packet = encode_message(b"a serialized message").unwrap();
    assert_eq!(
        client.on_packet(SECOND, &packet),
        Ok(b"a serialized message".to_vec())
    );
    assert_eq!(
        client.bytes_per_second(0),
        Ratio {
            numerator: 0,
            denominator: 1
        }
    );
    client.on_packet(SECOND + 500_000, &packet).unwrap();
    client.on_packet(2 * SECOND, &packet).unwrap();
    assert_eq!(
        client.bytes_per_second(0),
        Ratio {
            numerator: 3 * packet.len() as u128 * 1_000_000,
            denominator: 1_000_000
        }
    );
}

#[test]
fn a_packet_that_does_not_decode_still_counts() {
    let mut client = connected();
    assert_eq!(
        client.on_packet(SECOND, b"garbage!"),
        Err(CodecError::Decoding(CodecStage::Zstd))
    );
    assert_eq!(
        client.on_packet(SECOND + 1, b"garbage!"),
        Err(CodecError::Decoding(CodecStage::Zstd))
    );
    assert_eq!(
        client.bytes_per_second(0),
        Ratio {
            numerator: 16_000_000,
            denominator: 1
        }
    );
}

#[test]
fn bandwidth_window_is_two_seconds() {
    let mut client = connected();
    client.on_packet(SECOND, b"12345678").ok();
    client.on_packet(2 * SECOND, b"1234").ok();
    client.on_packet(3 * SECOND + 1, b"12").ok();
    // The first packet is more than two seconds old now.
    assert_eq!(
        client.bytes_per_second(0),
        Ratio {
            numerator: 6_000_000,
            denominator: 1_000_001
        }
    );
    client.update(10 * SECOND);
    assert_eq!(
        client.bytes_per_second(0),
        Ratio {
            numerator: 0,
            denominator: 1
        }
    );
}

#[test]
fn frame_packets_have_an_average_size() {
    let mut client = connected();
    client.on_frame_packet(SECOND, 1000);
    client.on_frame_packet(SECOND + 10, 3000);
    assert_eq!(
        client.average_frame_packet_size(0),
        Some(Ratio {
            numerator: 4000,
            denominator: 2
        })
    );
    // Only frame packets count here.
    client.on_packet(SECOND + 20, b"not a frame").ok();
    assert_eq!(
        client.average_frame_packet_size(0),
        Some(Ratio {
            numerator: 4000,
            denominator: 2
        })
    );
    // After half a second of silence one sample is kept.
    client.update(5 * SECOND);
    assert_eq!(
        client.average_frame_packet_size(0),
        Some(Ratio {
            numerator: 3000,
            denominator: 1
        })
    );
}

#[test]
fn a_sample_from_the_past_is_filed_under_the_newest_time() {
    let mut client = connected();
    client.on_frame(10 * SECOND, 0, PlatformOutput::default(), Vec::new(), None);
    client.on_frame(3 * SECOND, 1, PlatformOutput::default(), Vec::new(), Some(2 * SECOND));
    // Both frames stand at ten seconds.
    assert_eq!(
        client.adaptive_fps(0),
        Some(Ratio {
            numerator: 2_000_000,
            denominator: 0
        })
    );
    // The round trip is measured by the time that was handed in.
    assert_eq!(
        client.latency(0),
        Some(Ratio {
            numerator: 1_000_000,
            denominator: 1_000_000
        })
    );
}

#[test]
fn histories_keep_their_own_times() {
    let mut client = connected();
    client.on_packet(10 * SECOND, b"12345678").ok();
    // The frames have not yet seen a time, so this one stands at its own.
    client.on_frame(3 * SECOND, 0, PlatformOutput::default(), Vec::new(), None);
    client.on_frame(4 * SECOND, 1, PlatformOutput::default(), Vec::new(), None);
    assert_eq!(
        client.adaptive_fps(0),
        Some(Ratio {
            numerator: 2_000_000,
            denominator: 1_000_000
        })
    );
}

#[test]
fn an_update_at_an_earlier_time_drops_only_what_is_old_at_that_time() {
    let mut client = connected();
    for i in 0..5 {
        client.on_frame(10 * SECOND + i * 100_000, i, PlatformOutput::default(), Vec::new(), None);
    }
    // At eleven seconds nothing is older than a second.
    client.update(11 * SECOND);
    assert_eq!(
        client.adaptive_fps(0),
        Some(Ratio {
            numerator: 5_000_000,
            denominator: 400_000
        })
    );
    // A microsecond later the first frame is.
    client.update(11 * SECOND + 1);
    assert_eq!(
        client.adaptive_fps(0),
        Some(Ratio {
            numerator: 4_000_000,
            denominator: 300_000
        })
    );
}

#[test]
fn a_read_lets_old_samples_go_first() {
    let mut client = connected();
    for i in 0..5 {
        client.on_frame(i * 100_000, i, PlatformOutput::default(), Vec::new(), Some(0));
    }
    // Read a minute later, without an update in between.
    assert_eq!(
        client.adaptive_fps(60 * SECOND),
        Some(Ratio {
            numerator: 2_000_000,
            denominator: 100_000
        })
    );
    assert_eq!(
        client.latency(60 * SECOND),
        Some(Ratio {
            numerator: 400_000,
            denominator: 1_000_000
        })
    );
}

#[test]
fn bandwidth_is_read_over_the_last_two_seconds() {
    let mut client = connected();
    client.on_packet(SECOND, b"12345678").ok();
    client.on_packet(2 * SECOND, b"1234").ok();
    client.on_packet(2 * SECOND + 500_000, b"12").ok();
    assert_eq!(
        client.bytes_per_second(3 * SECOND),
        Ratio {
            numerator: 14_000_000,
            denominator: 1_500_000
        }
    );
    assert_eq!(
        client.bytes_per_second(3 * SECOND + 1),
        Ratio {
            numerator: 6_000_000,
            denominator: 500_000
        }
    );
    assert_eq!(
        client.bytes_per_second(10 * SECOND),
        Ratio {
            numerator: 0,
            denominator: 1
        }
    );
}

#[test]
fn frame_packet_size_is_read_over_the_last_half_second() {
    let mut client = connected();
    client.on_frame_packet(SECOND, 1000);
    client.on_frame_packet(SECOND + 400_000, 3000);
    assert_eq!(
        client.average_frame_packet_size(SECOND + 500_000),
        Some(Ratio {
            numerator: 4000,
            denominator: 2
        })
    );
    assert_eq!(
        client.average_frame_packet_size(SECOND + 500_001),
        Some(Ratio {
            numerator: 3000,
            denominator: 1
        })
    );
}

#[test]
fn only_the_packet_of_a_frame_counts_as_a_frame_packet() {
    let mut client = connected();
    let fonts: ServerToClientMessage<u32> = ServerToClientMessage::Fonts {
        font_definitions: egui::FontDefinitions::default(),
    };
    let frame: ServerToClientMessage<u32> = ServerToClientMessage::Frame {
        frame_index: 0,
        platform_output: PlatformOutput::default(),
        clipped_net_shapes: vec![1, 2, 3],
        client_time: None,
    };
    client.on_message(SECOND, 500_000, &fonts);
    assert_eq!(client.average_frame_packet_size(0), None);
    client.on_message(SECOND, 700, &frame);
    client.on_message(SECOND + 1, 500_000, &fonts);
    client.on_message(SECOND + 2, 900, &frame);
    assert_eq!(
        client.average_frame_packet_size(0),
        Some(Ratio {
            numerator: 1600,
            denominator: 2
        })
    );
}
