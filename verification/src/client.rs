//! The viewer's side of a session: its connection state, the frame it has to
//! show, and what it measures of the traffic.
//!
//! The socket, the queues between the worker and the application, and the
//! clock stay with the caller. Times are microseconds since the epoch. A
//! sample that is taken at a time before the newest one of its history is
//! filed under the time of that one, so that a history stays in order.

use crate::codec::{decode_message, zstd_content, zstd_readable, CodecError, CodecStage};
use crate::history::{filed_at, flushed, total, window_of, History, Ratio, Sample};
use crate::message::{ClientToServerMessage, EguiFrame};
use crate::ui::{lemma_first_output, merged_output, same_output};
use vstd::prelude::*;

verus! {

/// After a failed attempt to connect the worker waits this long before the next.
pub const RECONNECT_DELAY_MILLIS: u64 = 1000;

/// While connected the worker looks at its queues and its socket this often.
pub const POLL_INTERVAL_MILLIS: u64 = 5;

/// Microseconds in a second.
pub const MICROS_PER_SECOND: u64 = 1_000_000;

/// Where the worker stands with its connection.
#[derive(Clone, Copy, Debug, PartialEq, Eq, Structural)]
pub enum ConnectionState {
    Disconnected,
    Connecting,
    Connected,
}

/// What happened to the worker.
#[derive(Clone, Copy, Debug, PartialEq, Eq, Structural)]
pub enum ConnectionEvent {
    /// The worker starts, or comes back from a wait or from a connection.
    Wake,
    /// The attempt to connect succeeded.
    ConnectSucceeded,
    /// The attempt to connect failed.
    ConnectFailed,
    /// One round of sending and receiving went through.
    Polled,
    /// Sending, receiving or decoding failed.
    ConnectionLost,
    /// The application has dropped its end of the outgoing queue.
    SenderDropped,
}

/// What the worker does next.
#[derive(Clone, Copy, Debug, PartialEq, Eq, Structural)]
pub enum ConnectionAction {
    /// Try to connect to the host.
    Connect,
    /// Do a round of sending and receiving at once.
    Poll,
    /// Sleep, then do a round of sending and receiving.
    SleepThenPoll { millis: u64 },
    /// Sleep, then wake.
    SleepThenWake { millis: u64 },
    /// Wake at once.
    WakeNow,
    /// End the worker.
    Exit,
    /// The event has no meaning in this state: nothing changes.
    Ignore,
}

/// The state and the action that follow an event. `alive` says that the
/// session has not been torn down; it is looked at only when the worker wakes
/// without a connection.
pub open spec fn transition(state: ConnectionState, event: ConnectionEvent, alive: bool) -> (
    ConnectionState,
    ConnectionAction,
) {
    match (state, event) {
        (ConnectionState::Disconnected, ConnectionEvent::Wake) => if alive {
            (ConnectionState::Connecting, ConnectionAction::Connect)
        } else {
            (ConnectionState::Disconnected, ConnectionAction::Exit)
        },
        (ConnectionState::Connecting, ConnectionEvent::ConnectFailed) => (
            ConnectionState::Disconnected,
            ConnectionAction::SleepThenWake { millis: 1000 },
        ),
        (ConnectionState::Connecting, ConnectionEvent::ConnectSucceeded) => (
            ConnectionState::Connected,
            ConnectionAction::Poll,
        ),
        (ConnectionState::Connected, ConnectionEvent::Polled) => (
            ConnectionState::Connected,
            ConnectionAction::SleepThenPoll { millis: 5 },
        ),
        (ConnectionState::Connected, ConnectionEvent::ConnectionLost) => (
            ConnectionState::Disconnected,
            ConnectionAction::WakeNow,
        ),
        (ConnectionState::Connected, ConnectionEvent::SenderDropped) => (
            ConnectionState::Disconnected,
            ConnectionAction::WakeNow,
        ),
        _ => (state, ConnectionAction::Ignore),
    }
}

/// The time from `earlier` to `now`, and zero where `earlier` is the later.
pub open spec fn since(earlier: u64, now: u64) -> u64 {
    if now >= earlier {
        (now - earlier) as u64
    } else {
        0
    }
}

/// What a history holds after a sample that was taken at `now` is filed in
/// it: the sample stands behind the others, under `now` or, where `now` lies
/// before the newest of them, under the time of that one; and what is too
/// old at that time has left.
pub open spec fn added(history: History, now: u64, value: u64) -> Seq<Sample> {
    flushed(
        history.samples().push(Sample { time: filed_at(history.samples(), now), value }),
        history.min_len(),
        history.max_len(),
        history.max_age(),
        filed_at(history.samples(), now) as nat,
    )
}

/// `after` holds the window that a flush at `now` leaves of `before`.
pub open spec fn window(before: History, after: History, now: u64) -> bool {
    window_of(
        before.samples(),
        after.samples(),
        before.min_len(),
        before.max_len(),
        before.max_age(),
        now as nat,
    )
}

/// What a history holds after a flush at `now`.
pub open spec fn flushed_at(history: History, now: u64) -> Seq<Sample> {
    flushed(
        history.samples(),
        history.min_len(),
        history.max_len(),
        history.max_age(),
        now as nat,
    )
}

/// A viewer's session with one host.
pub struct Client {
    addr: String,
    state: ConnectionState,
    alive: bool,
    latest_frame: Option<EguiFrame>,
    bandwidth_history: History,
    frame_size_history: History,
    latency_history: History,
    frame_history: History,
}

impl Client {
    /// The host's address, as it was given.
    pub closed spec fn host(&self) -> Seq<char> {
        self.addr@
    }

    /// Where the worker stands.
    pub closed spec fn state(&self) -> ConnectionState {
        self.state
    }

    /// The session has not been torn down.
    pub closed spec fn alive(&self) -> bool {
        self.alive
    }

    /// The newest frame that the application has not yet taken.
    pub closed spec fn latest_frame(&self) -> Option<EguiFrame> {
        self.latest_frame
    }

    /// The sizes of the packets of the last two seconds.
    pub closed spec fn bandwidth(&self) -> History {
        self.bandwidth_history
    }

    /// The sizes of the frame packets of the last half second.
    pub closed spec fn frame_sizes(&self) -> History {
        self.frame_size_history
    }

    /// The round-trip times of the last second, in microseconds.
    pub closed spec fn latencies(&self) -> History {
        self.latency_history
    }

    /// One sample for each frame of the last second.
    pub closed spec fn frames(&self) -> History {
        self.frame_history
    }

    /// A history is in order and within its limits, and these are its limits.
    pub open spec fn history_ok(
        history: History,
        min_len: nat,
        max_len: nat,
        max_age: nat,
    ) -> bool {
        &&& history.wf()
        &&& history.min_len() == min_len
        &&& history.max_len() == max_len
        &&& history.max_age() == max_age
    }

    /// Each of the four histories is in order and has its limits.
    pub open spec fn wf(&self) -> bool {
        &&& Self::history_ok(self.bandwidth(), 0, 200, 2_000_000)
        &&& Self::history_ok(self.frame_sizes(), 1, 100, 500_000)
        &&& Self::history_ok(self.latencies(), 1, 100, 1_000_000)
        &&& Self::history_ok(self.frames(), 2, 100, 1_000_000)
    }

    /// Nothing but the connection state may differ from `before`.
    pub open spec fn same_but_state(&self, before: &Self) -> bool {
        &&& self.host() == before.host()
        &&& self.alive() == before.alive()
        &&& self.latest_frame() == before.latest_frame()
        &&& self.bandwidth() == before.bandwidth()
        &&& self.frame_sizes() == before.frame_sizes()
        &&& self.latencies() == before.latencies()
        &&& self.frames() == before.frames()
    }

    /// A session with the host at `addr`: alive, not connected, nothing
    /// measured and nothing to show.
    pub fn new(addr: String) -> (client: Self)
        ensures
            client.wf(),
            client.host() == addr@,
            client.state() == ConnectionState::Disconnected,
            client.alive(),
            client.latest_frame() is None,
            client.bandwidth().samples() == Seq::<Sample>::empty(),
            client.frame_sizes().samples() == Seq::<Sample>::empty(),
            client.latencies().samples() == Seq::<Sample>::empty(),
            client.frames().samples() == Seq::<Sample>::empty(),
    {
        Client {
            addr,
            state: ConnectionState::Disconnected,
            alive: true,
            latest_frame: None,
            bandwidth_history: History::new(0, 200, 2 * MICROS_PER_SECOND),
            frame_size_history: History::new(1, 100, MICROS_PER_SECOND / 2),
            latency_history: History::new(1, 100, MICROS_PER_SECOND),
            frame_history: History::new(2, 100, MICROS_PER_SECOND),
        }
    }

    /// The address we are connected to or trying to connect to.
    pub fn addr(&self) -> (addr: &str)
        ensures
            addr@ == self.host(),
    {
        self.addr.as_str()
    }

    /// Are we currently connected to the host?
    pub fn is_connected(&self) -> (b: bool)
        ensures
            b == (self.state() == ConnectionState::Connected),
    {
        match self.state {
            ConnectionState::Connected => true,
            _ => false,
        }
    }

    /// Tears the session down: the worker exits when it next wakes without a
    /// connection.
    pub fn shut_down(&mut self)
        ensures
            !final(self).alive(),
            final(self).state() == old(self).state(),
            final(self).host() == old(self).host(),
            final(self).latest_frame() == old(self).latest_frame(),
            final(self).bandwidth() == old(self).bandwidth(),
            final(self).frame_sizes() == old(self).frame_sizes(),
            final(self).latencies() == old(self).latencies(),
            final(self).frames() == old(self).frames(),
    {
        self.alive = false;
    }

    /// Takes an event of the worker, moves the connection state and says what
    /// the worker does next.
    pub fn on_event(&mut self, event: ConnectionEvent) -> (action: ConnectionAction)
        ensures
            (final(self).state(), action) == transition(
                old(self).state(),
                event,
                old(self).alive(),
            ),
            final(self).same_but_state(old(self)),
    {
        let (state, action) = match (self.state, event) {
            (ConnectionState::Disconnected, ConnectionEvent::Wake) => if self.alive {
                (ConnectionState::Connecting, ConnectionAction::Connect)
            } else {
                (ConnectionState::Disconnected, ConnectionAction::Exit)
            },
            (ConnectionState::Connecting, ConnectionEvent::ConnectFailed) => (
                ConnectionState::Disconnected,
                ConnectionAction::SleepThenWake { millis: RECONNECT_DELAY_MILLIS },
            ),
            (ConnectionState::Connecting, ConnectionEvent::ConnectSucceeded) => (
                ConnectionState::Connected,
                ConnectionAction::Poll,
            ),
            (ConnectionState::Connected, ConnectionEvent::Polled) => (
                ConnectionState::Connected,
                ConnectionAction::SleepThenPoll { millis: POLL_INTERVAL_MILLIS },
            ),
            (ConnectionState::Connected, ConnectionEvent::ConnectionLost) => (
                ConnectionState::Disconnected,
                ConnectionAction::WakeNow,
            ),
            (ConnectionState::Connected, ConnectionEvent::SenderDropped) => (
                ConnectionState::Disconnected,
                ConnectionAction::WakeNow,
            ),
            (state, _) => (state, ConnectionAction::Ignore),
        };
        self.state = state;
        action
    }

    /// Stamps the input with the time at which it is sent, so that the
    /// round trip can be measured when the host echoes the stamp.
    pub fn send_input(&self, raw_input: egui::RawInput, now: u64) -> (message:
        ClientToServerMessage)
        ensures
            message == (ClientToServerMessage::Input { raw_input, client_time: now }),
    {
        ClientToServerMessage::Input { raw_input, client_time: now }
    }

    /// What stays as it was when only the histories move.
    pub open spec fn same_connection(&self, before: &Self) -> bool {
        &&& self.host() == before.host()
        &&& self.state() == before.state()
        &&& self.alive() == before.alive()
    }

    /// Takes a packet that arrived at `now`: counts its length towards the
    /// bandwidth, whatever it holds, and decompresses it into a serialized
    /// message, which succeeds exactly where zstd reads the packet.
    pub fn on_packet(&mut self, now: u64, packet: &[u8]) -> (res: Result<Vec<u8>, CodecError>)
        requires
            old(self).wf(),
        ensures
            final(self).wf(),
            final(self).same_connection(old(self)),
            final(self).bandwidth().samples() == added(
                old(self).bandwidth(),
                now,
                packet@.len() as u64,
            ),
            final(self).frame_sizes() == old(self).frame_sizes(),
            final(self).latencies() == old(self).latencies(),
            final(self).frames() == old(self).frames(),
            final(self).latest_frame() == old(self).latest_frame(),
            res is Ok == zstd_readable(packet@),
            match res {
                Ok(serialized) => serialized@ == zstd_content(packet@),
                Err(e) => e == CodecError::Decoding(CodecStage::Zstd),
            },
    {
        self.bandwidth_history.record(now, packet.len() as u64);
        decode_message(packet)
    }

    /// Counts the length of a packet that held a frame, received at `now`,
    /// towards the size of a frame packet.
    pub fn on_frame_packet(&mut self, now: u64, packet_len: usize)
        requires
            old(self).wf(),
        ensures
            final(self).wf(),
            final(self).same_connection(old(self)),
            final(self).frame_sizes().samples() == added(
                old(self).frame_sizes(),
                now,
                packet_len as u64,
            ),
            final(self).bandwidth() == old(self).bandwidth(),
            final(self).latencies() == old(self).latencies(),
            final(self).frames() == old(self).frames(),
            final(self).latest_frame() == old(self).latest_frame(),
    {
        self.frame_size_history.record(now, packet_len as u64);
    }

    /// Takes note of a message that was decoded from a packet of `packet_len`
    /// bytes, received at `now`: the packet of a frame counts towards the size
    /// of a frame packet, that of any other message changes nothing.
    pub fn on_message<S>(
        &mut self,
        now: u64,
        packet_len: usize,
        message: &crate::message::ServerToClientMessage<S>,
    )
        requires
            old(self).wf(),
        ensures
            final(self).wf(),
            final(self).same_connection(old(self)),
            final(self).bandwidth() == old(self).bandwidth(),
            final(self).latencies() == old(self).latencies(),
            final(self).frames() == old(self).frames(),
            final(self).latest_frame() == old(self).latest_frame(),
            message is Frame ==> final(self).frame_sizes().samples() == added(
                old(self).frame_sizes(),
                now,
                packet_len as u64,
            ),
            !(message is Frame) ==> final(self).frame_sizes() == old(self).frame_sizes(),
    {
        match message {
            crate::message::ServerToClientMessage::Frame { .. } => {
                self.on_frame_packet(now, packet_len);
            },
            crate::message::ServerToClientMessage::Fonts { .. } => {},
        }
    }

    /// Takes a frame that the application got from the host at `now`.
    ///
    /// The frame to show takes the new index and the new primitives; the new
    /// output is merged into what has not been taken yet. The frame counts
    /// once towards the frame rate. Where it echoes a timestamp, the time from
    /// that stamp to now is a sample of the latency.
    pub fn on_frame(
        &mut self,
        now: u64,
        frame_index: u64,
        platform_output: egui::PlatformOutput,
        clipped_meshes: Vec<egui::ClippedPrimitive>,
        client_time: Option<u64>,
    )
        requires
            old(self).wf(),
        ensures
            final(self).wf(),
            final(self).same_connection(old(self)),
            final(self).latest_frame() matches Some(frame) && frame.frame_index == frame_index
                && frame.clipped_meshes == clipped_meshes && match old(self).latest_frame() {
                Some(waiting) => merged_output(
                    waiting.platform_output,
                    platform_output,
                    frame.platform_output,
                ),
                None => same_output(frame.platform_output, platform_output),
            },
            final(self).latencies().samples() == match client_time {
                Some(sent) => added(old(self).latencies(), now, since(sent, now)),
                None => old(self).latencies().samples(),
            },
            final(self).frames().samples() == added(old(self).frames(), now, 1),
            final(self).bandwidth() == old(self).bandwidth(),
            final(self).frame_sizes() == old(self).frame_sizes(),
            client_time matches Some(sent) ==> final(self).latencies().samples().len() >= 1
                && final(self).latencies().samples().last() == (Sample {
                time: filed_at(old(self).latencies().samples(), now),
                value: since(sent, now),
            }),
            final(self).frames().samples().len() >= 1 && final(self).frames().samples().last() == (
            Sample { time: filed_at(old(self).frames().samples(), now), value: 1 }),
    {
        proof {
            match client_time {
                Some(sent) => {
                    crate::history::lemma_added_sample_stays(
                        self.latencies().samples(),
                        Sample {
                            time: filed_at(self.latencies().samples(), now),
                            value: since(sent, now),
                        },
                        1,
                        100,
                        1_000_000,
                    );
                },
                None => {},
            }
            crate::history::lemma_added_sample_stays(
                self.frames().samples(),
                Sample { time: filed_at(self.frames().samples(), now), value: 1 },
                2,
                100,
                1_000_000,
            );
        }
        let mut frame: EguiFrame = match self.latest_frame.take() {
            Some(frame) => frame,
            None => EguiFrame::default(),
        };
        let ghost waiting = frame.platform_output;
        frame.frame_index = frame_index;
        frame.platform_output.append(platform_output);
        proof {
            if old(self).latest_frame() is None {
                lemma_first_output(waiting, platform_output, frame.platform_output);
            }
        }
        frame.clipped_meshes = clipped_meshes;
        self.latest_frame = Some(frame);
        match client_time {
            Some(sent) => {
                let rtt: u64 = if now >= sent {
                    now - sent
                } else {
                    0
                };
                self.latency_history.record(now, rtt);
            },
            None => {},
        }
        self.frame_history.record(now, 1);
    }

    /// Ends the application's tick at `now`: lets what is too old at `now`
    /// leave the four histories, and hands out the frame to show, if a new
    /// one came.
    ///
    /// Of each history the newest part stays, in order. A sample leaves only
    /// if it is older at `now` than the history allows, and only while more
    /// than the history's least number are there.
    pub fn update(&mut self, now: u64) -> (frame: Option<EguiFrame>)
        requires
            old(self).wf(),
        ensures
            final(self).wf(),
            final(self).same_connection(old(self)),
            frame == old(self).latest_frame(),
            final(self).latest_frame() is None,
            final(self).bandwidth().samples() == flushed_at(old(self).bandwidth(), now),
            final(self).frame_sizes().samples() == flushed_at(old(self).frame_sizes(), now),
            final(self).latencies().samples() == flushed_at(old(self).latencies(), now),
            final(self).frames().samples() == flushed_at(old(self).frames(), now),
            window(old(self).bandwidth(), final(self).bandwidth(), now),
            window(old(self).frame_sizes(), final(self).frame_sizes(), now),
            window(old(self).latencies(), final(self).latencies(), now),
            window(old(self).frames(), final(self).frames(), now),
    {
        self.bandwidth_history.flush(now);
        self.frame_size_history.flush(now);
        self.latency_history.flush(now);
        self.frame_history.flush(now);
        self.latest_frame.take()
    }

    /// Estimated bandwidth use (downstream), in bytes per second, at `now`: the
    /// bytes of the packets of the last two seconds, over the time from the
    /// oldest of them to the newest. Zero with fewer than two packets.
    ///
    /// What is too old at `now` leaves the history first.
    pub fn bytes_per_second(&mut self, now: u64) -> (flow: Ratio)
        requires
            old(self).wf(),
        ensures
            final(self).wf(),
            final(self).same_connection(old(self)),
            final(self).latest_frame() == old(self).latest_frame(),
            final(self).bandwidth().samples() == flushed_at(old(self).bandwidth(), now),
            final(self).frame_sizes() == old(self).frame_sizes(),
            final(self).latencies() == old(self).latencies(),
            final(self).frames() == old(self).frames(),
            final(self).bandwidth().samples().len() < 2 ==> flow == (Ratio {
                numerator: 0,
                denominator: 1,
            }),
            final(self).bandwidth().samples().len() >= 2 ==> flow == (Ratio {
                numerator: (total(final(self).bandwidth().samples()) * 1_000_000) as u128,
                denominator: crate::history::span(final(self).bandwidth().samples()) as u64,
            }),
    {
        self.bandwidth_history.flush(now);
        match self.bandwidth_history.sum_over_time() {
            None => Ratio { numerator: 0, denominator: 1 },
            Some(per_micro) => {
                proof {
                    let samples = self.bandwidth().samples();
                    crate::history::lemma_total_bound(samples);
                    assert(samples.len() * 0xffff_ffff_ffff_ffff <= 200 * 0xffff_ffff_ffff_ffff)
                        by (nonlinear_arith)
                        requires
                            samples.len() <= 200,
                    ;
                }
                Ratio {
                    numerator: per_micro.numerator * (MICROS_PER_SECOND as u128),
                    denominator: per_micro.denominator,
                }
            },
        }
    }

    /// Estimated size of one frame packet, in bytes, at `now`: the mean over
    /// the frame packets of the last half second. `None` without any.
    ///
    /// What is too old at `now` leaves the history first.
    pub fn average_frame_packet_size(&mut self, now: u64) -> (mean: Option<Ratio>)
        requires
            old(self).wf(),
        ensures
            final(self).wf(),
            final(self).same_connection(old(self)),
            final(self).latest_frame() == old(self).latest_frame(),
            final(self).frame_sizes().samples() == flushed_at(old(self).frame_sizes(), now),
            final(self).bandwidth() == old(self).bandwidth(),
            final(self).latencies() == old(self).latencies(),
            final(self).frames() == old(self).frames(),
            final(self).frame_sizes().samples().len() == 0 ==> mean is None,
            final(self).frame_sizes().samples().len() > 0 ==> mean == Some(
                Ratio {
                    numerator: total(final(self).frame_sizes().samples()) as u128,
                    denominator: final(self).frame_sizes().samples().len() as u64,
                },
            ),
    {
        self.frame_size_history.flush(now);
        self.frame_size_history.average()
    }

    /// Smoothed round-trip-time estimate in seconds, at `now`: the mean of
    /// the round-trip times of the last second. `None` without any.
    ///
    /// What is too old at `now` leaves the history first.
    pub fn latency(&mut self, now: u64) -> (mean: Option<Ratio>)
        requires
            old(self).wf(),
        ensures
            final(self).wf(),
            final(self).same_connection(old(self)),
            final(self).latest_frame() == old(self).latest_frame(),
            final(self).latencies().samples() == flushed_at(old(self).latencies(), now),
            final(self).bandwidth() == old(self).bandwidth(),
            final(self).frame_sizes() == old(self).frame_sizes(),
            final(self).frames() == old(self).frames(),
            final(self).latencies().samples().len() == 0 ==> mean is None,
            final(self).latencies().samples().len() > 0 ==> mean == Some(
                Ratio {
                    numerator: total(final(self).latencies().samples()) as u128,
                    denominator: (final(self).latencies().samples().len() * 1_000_000) as u64,
                },
            ),
    {
        self.latency_history.flush(now);
        match self.latency_history.average() {
            None => None,
            Some(micros) => Some(
                Ratio {
                    numerator: micros.numerator,
                    denominator: micros.denominator * MICROS_PER_SECOND,
                },
            ),
        }
    }

    /// Smoothed estimate of the frames per second that arrive, at `now`: the
    /// number of frames of the last second, over the time from the oldest of
    /// them to the newest. `None` with fewer than two frames.
    ///
    /// What is too old at `now` leaves the history first.
    pub fn adaptive_fps(&mut self, now: u64) -> (rate: Option<Ratio>)
        requires
            old(self).wf(),
        ensures
            final(self).wf(),
            final(self).same_connection(old(self)),
            final(self).latest_frame() == old(self).latest_frame(),
            final(self).frames().samples() == flushed_at(old(self).frames(), now),
            final(self).bandwidth() == old(self).bandwidth(),
            final(self).frame_sizes() == old(self).frame_sizes(),
            final(self).latencies() == old(self).latencies(),
            final(self).frames().samples().len() < 2 ==> rate is None,
            final(self).frames().samples().len() >= 2 ==> rate == Some(
                Ratio {
                    numerator: (final(self).frames().samples().len() * 1_000_000) as u128,
                    denominator: crate::history::span(final(self).frames().samples()) as u64,
                },
            ),
    {
        self.frame_history.flush(now);
        match self.frame_history.rate() {
            None => None,
            Some(per_micro) => Some(
                Ratio {
                    numerator: per_micro.numerator * (MICROS_PER_SECOND as u128),
                    denominator: per_micro.denominator,
                },
            ),
        }
    }
}

} // verus!
