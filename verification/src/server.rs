//! The host's table of sessions, one for each remote viewer.
//!
//! A session outlives its connection: when a viewer reconnects from the same
//! address it finds its UI state and its frame counter as it left them.
//! Sockets, the UI pass and the serializer stay with the caller; what is
//! decided between them is decided here.

use crate::codec::{
    zstd_content, zstd_frame, zstd_readable, zstd_writable, CodecError, CodecStage,
};
use crate::endpoint::{
    action_after, missing, unsent_after, TcpEndpoint, WriteAction, WriteOutcome,
};
use crate::error::Error;
use crate::message::{ClientToServerMessage, ServerToClientMessage};
use crate::protocol::{framed, parse, Parsed};
use crate::ui::{empty_input, is_default_output, merged_input, no_side_effects};
use vstd::prelude::*;
use vstd::std_specs::cmp::PartialEqSpec;

verus! {

/// A new frame goes to each viewer at least this often, in microseconds,
/// unless the host sets another interval.
pub const DEFAULT_MINIMUM_UPDATE_INTERVAL: u64 = 1_000_000;

/// Names a session for the host's UI code. Sessions are numbered from zero in
/// the order in which their viewers first connected.
#[derive(Copy, Clone, Debug, PartialEq, Eq, Hash, Structural)]
pub struct ClientId(pub u64);

/// The network identity of a viewer: the address and port it connects from.
#[derive(Copy, Clone, Debug, PartialEq, Eq, Hash, Structural)]
pub enum PeerAddr {
    V4 { octets: u32, port: u16 },
    V6 { segments: u128, port: u16, flowinfo: u32, scope_id: u32 },
}

/// What a session is to render in this tick.
pub struct Pass {
    /// The input to hand to the UI engine.
    pub input: egui::RawInput,
    /// The engine's clock for this pass: microseconds since the session began.
    pub time: u64,
    /// The viewer's timestamp to echo in the frame, if input caused this pass.
    pub client_time: Option<u64>,
}

/// What polling a session for a message came to.
pub enum Received {
    /// No whole message has arrived, or the session has no connection.
    Nothing,
    /// A message, decompressed and still to be deserialized.
    Message(Vec<u8>),
    /// The connection broke on this error, and the session is disconnected.
    Failed(Error),
}

/// The state that the host keeps for one viewer.
pub struct Client<S> {
    client_id: ClientId,
    addr: PeerAddr,
    tcp_endpoint: Option<TcpEndpoint>,
    start_time: u64,
    frame_index: u64,
    egui_ctx: egui::Context,
    input: Option<egui::RawInput>,
    client_time: Option<u64>,
    last_frame_time: Option<u64>,
    last_visuals: Vec<S>,
}

/// `copy` holds a clone of each item of `shapes`, in the same order.
pub open spec fn copies<S: Clone>(shapes: Seq<S>, copy: Seq<S>) -> bool {
    &&& copy.len() == shapes.len()
    &&& forall|i: int| 0 <= i < shapes.len() ==> cloned::<S>(#[trigger] shapes[i], copy[i])
}

/// The time from `earlier` to `now`, and zero where the clock went back.
pub open spec fn elapsed(earlier: u64, now: u64) -> u64 {
    if now >= earlier {
        (now - earlier) as u64
    } else {
        0
    }
}

/// Without new input a session renders only when more than `interval` has
/// passed since it last sent a frame, or when it has never sent one.
pub open spec fn heartbeat_due(last_frame_time: Option<u64>, now: u64, interval: u64) -> bool {
    match last_frame_time {
        None => true,
        Some(last) => elapsed(last, now) > interval,
    }
}

/// A frame is held back only when the pass had no side effects and the wire
/// shapes are those that were sent last.
pub open spec fn frame_is_due(no_side_effects: bool, same_visuals: bool) -> bool {
    !(no_side_effects && same_visuals)
}

impl<S> Client<S> {
    /// The session's number.
    pub closed spec fn id(&self) -> ClientId {
        self.client_id
    }

    /// Where the viewer connects from.
    pub closed spec fn peer(&self) -> PeerAddr {
        self.addr
    }

    /// When the session began, on the host's clock.
    pub closed spec fn started(&self) -> u64 {
        self.start_time
    }

    /// The retained state of the UI engine.
    pub closed spec fn context(&self) -> egui::Context {
        self.egui_ctx
    }

    /// The connection, present exactly while the viewer is connected.
    pub closed spec fn endpoint(&self) -> Option<TcpEndpoint> {
        self.tcp_endpoint
    }

    /// The index that the next frame will carry.
    pub closed spec fn next_frame_index(&self) -> u64 {
        self.frame_index
    }

    /// The input that arrived since the last pass, merged into one snapshot.
    pub closed spec fn pending_input(&self) -> Option<egui::RawInput> {
        self.input
    }

    /// The viewer's timestamp of the newest pending input.
    pub closed spec fn pending_echo(&self) -> Option<u64> {
        self.client_time
    }

    /// When the session last sent a frame.
    pub closed spec fn last_frame_time(&self) -> Option<u64> {
        self.last_frame_time
    }

    /// The wire shapes of the last frame that was sent over this connection.
    pub closed spec fn last_visuals(&self) -> Seq<S> {
        self.last_visuals@
    }

    /// The viewer is connected.
    pub open spec fn is_connected(&self) -> bool {
        self.endpoint() is Some
    }

    /// What no step of a session ever changes: its number, its address, its
    /// start, and the UI engine's state that it retains.
    pub open spec fn same_session(&self, before: &Self) -> bool {
        &&& self.id() == before.id()
        &&& self.peer() == before.peer()
        &&& self.started() == before.started()
        &&& self.context() == before.context()
    }

    /// Nothing that is waiting for the next pass has changed.
    pub open spec fn same_pending(&self, before: &Self) -> bool {
        &&& self.pending_input() == before.pending_input()
        &&& self.pending_echo() == before.pending_echo()
        &&& self.last_frame_time() == before.last_frame_time()
    }

    /// The state after a disconnect from `before`: no connection and no last
    /// visuals, so that a viewer who comes back is sent everything; all else,
    /// the frame counter too, as it was.
    pub open spec fn disconnected_from(&self, before: &Self) -> bool {
        &&& self.same_session(before)
        &&& self.same_pending(before)
        &&& self.next_frame_index() == before.next_frame_index()
        &&& self.endpoint() is None
        &&& self.last_visuals() == Seq::<S>::empty()
    }

    /// The state after a viewer connected to the session `before`: a fresh
    /// connection; all else as it was.
    pub open spec fn connected_from(&self, before: &Self) -> bool {
        &&& self.same_session(before)
        &&& self.same_pending(before)
        &&& self.next_frame_index() == before.next_frame_index()
        &&& self.last_visuals() == before.last_visuals()
        &&& self.endpoint() matches Some(endpoint) && endpoint.received() == Seq::<u8>::empty()
            && endpoint.unsent() == Seq::<u8>::empty()
    }

    /// A session for a viewer that connects for the first time at `now`.
    pub fn new(client_id: ClientId, addr: PeerAddr, now: u64) -> (client: Self)
        ensures
            client.id() == client_id,
            client.peer() == addr,
            client.started() == now,
            client.endpoint() is None,
            client.next_frame_index() == 0,
            client.pending_input() is None,
            client.pending_echo() is None,
            client.last_frame_time() is None,
            client.last_visuals() == Seq::<S>::empty(),
    {
        Client {
            client_id,
            addr,
            tcp_endpoint: None,
            start_time: now,
            frame_index: 0,
            egui_ctx: egui::Context::default(),
            input: None,
            client_time: None,
            last_frame_time: None,
            last_visuals: Vec::new(),
        }
    }

    /// The session's number.
    pub fn client_id(&self) -> (id: ClientId)
        ensures
            id == self.id(),
    {
        self.client_id
    }

    /// Where the viewer connects from.
    pub fn addr(&self) -> (addr: PeerAddr)
        ensures
            addr == self.peer(),
    {
        self.addr
    }

    /// The viewer is connected.
    pub fn connected(&self) -> (b: bool)
        ensures
            b == self.is_connected(),
    {
        self.tcp_endpoint.is_some()
    }

    /// The index that the next frame will carry.
    pub fn frame_index(&self) -> (index: u64)
        ensures
            index == self.next_frame_index(),
    {
        self.frame_index
    }

    /// The UI engine's state for this viewer, to run the UI in.
    pub fn egui_ctx(&self) -> (ctx: &egui::Context)
        ensures
            *ctx == self.context(),
    {
        &self.egui_ctx
    }

    /// The wire shapes that were sent last, to compare new ones with.
    pub fn visuals(&self) -> (shapes: &Vec<S>)
        ensures
            shapes@ == self.last_visuals(),
    {
        &self.last_visuals
    }

    /// Input is waiting for the next pass.
    pub fn has_input(&self) -> (b: bool)
        ensures
            b == (self.pending_input() is Some),
    {
        self.input.is_some()
    }

    /// Takes up a new connection, in place of any that was there.
    pub fn connect(&mut self)
        ensures
            final(self).connected_from(old(self)),
    {
        self.tcp_endpoint = Some(TcpEndpoint::new());
    }

    /// Drops the connection and forgets what was sent over it.
    pub fn disconnect(&mut self)
        ensures
            final(self).disconnected_from(old(self)),
    {
        self.tcp_endpoint = None;
        self.last_visuals = Vec::new();
    }

    /// Adds new input to what is pending: the first input is kept as it is,
    /// any later one is merged into it by the UI engine.
    pub fn input(&mut self, new_input: egui::RawInput)
        ensures
            final(self).same_session(old(self)),
            final(self).endpoint() == old(self).endpoint(),
            final(self).next_frame_index() == old(self).next_frame_index(),
            final(self).last_visuals() == old(self).last_visuals(),
            final(self).pending_echo() == old(self).pending_echo(),
            final(self).last_frame_time() == old(self).last_frame_time(),
            match old(self).pending_input() {
                None => final(self).pending_input() == Some(new_input),
                Some(older) => final(self).pending_input() matches Some(merged) && merged_input(
                    older,
                    new_input,
                    merged,
                ),
            },
    {
        match &mut self.input {
            None => {
                self.input = Some(new_input);
            },
            Some(existing_input) => {
                existing_input.append(new_input);
            },
        }
    }

    /// The state after the message `message` arrived at the session `before`.
    pub open spec fn message_applied(&self, before: &Self, message: ClientToServerMessage) -> bool {
        match message {
            ClientToServerMessage::Input { raw_input, client_time } => {
                &&& self.same_session(before)
                &&& self.endpoint() == before.endpoint()
                &&& self.next_frame_index() == before.next_frame_index()
                &&& self.last_visuals() == before.last_visuals()
                &&& self.last_frame_time() == before.last_frame_time()
                &&& self.pending_echo() == Some(client_time)
                &&& match before.pending_input() {
                    None => self.pending_input() == Some(raw_input),
                    Some(older) => self.pending_input() matches Some(merged) && merged_input(
                        older,
                        raw_input,
                        merged,
                    ),
                }
            },
            ClientToServerMessage::Goodbye => self.disconnected_from(before),
        }
    }

    /// Takes a message from the viewer. Input is merged into the pending
    /// input and its timestamp kept for the echo; a goodbye disconnects.
    /// Returns whether to go on polling this viewer.
    pub fn on_message(&mut self, message: ClientToServerMessage) -> (keep_polling: bool)
        ensures
            final(self).message_applied(old(self), message),
            keep_polling == (message is Input),
    {
        match message {
            ClientToServerMessage::Input { raw_input, client_time } => {
                self.input(raw_input);
                self.client_time = Some(client_time);
                true
            },
            ClientToServerMessage::Goodbye => {
                self.disconnect();
                false
            },
        }
    }

    /// Takes in bytes that the viewer sent. Without a connection they are dropped.
    pub fn feed(&mut self, chunk: &[u8])
        ensures
            final(self).same_session(old(self)),
            final(self).same_pending(old(self)),
            final(self).next_frame_index() == old(self).next_frame_index(),
            final(self).last_visuals() == old(self).last_visuals(),
            match old(self).endpoint() {
                None => final(self).endpoint() is None,
                Some(before) => final(self).endpoint() matches Some(after) && after.received()
                    == before.received() + chunk@ && after.unsent() == before.unsent(),
            },
    {
        match &mut self.tcp_endpoint {
            None => {},
            Some(endpoint) => {
                endpoint.feed(chunk);
            },
        }
    }

    /// How many bytes to read from the viewer's socket, at most, before
    /// polling for a message again; zero without a connection.
    pub fn wanted(&self) -> (n: usize)
        ensures
            match self.endpoint() {
                None => n == 0,
                Some(endpoint) => n == missing(endpoint.received()),
            },
    {
        match &self.tcp_endpoint {
            None => 0,
            Some(endpoint) => endpoint.wanted(),
        }
    }

    /// Polls for one message, without blocking.
    ///
    /// A packet that has wholly arrived is handed out as a message exactly
    /// where zstd reads its payload. A packet that breaks the protocol, or
    /// that does not decompress, ends the connection: the session is
    /// disconnected and the error handed back.
    pub fn try_receive(&mut self) -> (res: Received)
        ensures
            final(self).same_session(old(self)),
            final(self).same_pending(old(self)),
            final(self).next_frame_index() == old(self).next_frame_index(),
            match old(self).endpoint() {
                None => {
                    &&& res is Nothing
                    &&& final(self).endpoint() is None
                    &&& final(self).last_visuals() == old(self).last_visuals()
                },
                Some(before) => match parse(before.received()) {
                    Parsed::NotYet => {
                        &&& res is Nothing
                        &&& final(self).last_visuals() == old(self).last_visuals()
                        &&& final(self).endpoint() matches Some(after) && after.received()
                            == before.received() && after.unsent() == before.unsent()
                    },
                    Parsed::Refused(e) => res matches Received::Failed(error) && error
                        == Error::Protocol(e) && final(self).disconnected_from(old(self)),
                    Parsed::Packet { payload, rest } => res is Message == zstd_readable(
                        payload,
                    ) && match res {
                        Received::Message(serialized) => {
                            &&& serialized@ == zstd_content(payload)
                            &&& final(self).last_visuals() == old(self).last_visuals()
                            &&& final(self).endpoint() matches Some(after) && after.received()
                                == rest && after.unsent() == before.unsent()
                        },
                        Received::Failed(error) => error == Error::Codec(
                            CodecError::Decoding(CodecStage::Zstd),
                        ) && final(self).disconnected_from(old(self)),
                        Received::Nothing => false,
                    },
                },
            },
    {
        let outcome = match &mut self.tcp_endpoint {
            None => {
                return Received::Nothing;
            },
            Some(endpoint) => endpoint.try_receive_message(),
        };
        match outcome {
            Ok(None) => Received::Nothing,
            Ok(Some(serialized)) => Received::Message(serialized),
            Err(error) => {
                self.disconnect();
                Received::Failed(error)
            },
        }
    }

    /// Queues a serialized message for the viewer. Without a connection
    /// nothing happens. With one, the message is queued exactly where zstd
    /// makes a frame of it; where it does not, the session is disconnected.
    pub fn send_message(&mut self, serialized: &[u8])
        ensures
            final(self).same_session(old(self)),
            final(self).same_pending(old(self)),
            final(self).next_frame_index() == old(self).next_frame_index(),
            match old(self).endpoint() {
                None => {
                    &&& final(self).endpoint() is None
                    &&& final(self).last_visuals() == old(self).last_visuals()
                },
                Some(before) => if zstd_writable(serialized@, 5) {
                    &&& final(self).last_visuals() == old(self).last_visuals()
                    &&& final(self).endpoint() matches Some(after) && after.received()
                        == before.received() && after.unsent() == before.unsent() + framed(
                        zstd_frame(serialized@, 5),
                    )
                } else {
                    final(self).disconnected_from(old(self))
                },
            },
    {
        let outcome = match &mut self.tcp_endpoint {
            None => {
                return ;
            },
            Some(endpoint) => endpoint.send_message(serialized),
        };
        match outcome {
            Ok(_) => {},
            Err(_) => {
                self.disconnect();
            },
        }
    }

    /// The bytes to write to the viewer's socket next, oldest first; `None`
    /// without a connection.
    pub fn pending_output(&self) -> (out: Option<&[u8]>)
        ensures
            match self.endpoint() {
                None => out is None,
                Some(endpoint) => out matches Some(bytes) && bytes@ == endpoint.unsent(),
            },
    {
        match &self.tcp_endpoint {
            None => None,
            Some(endpoint) => Some(endpoint.pending_output()),
        }
    }

    /// Records what a write to the viewer's socket came to. Where the
    /// connection has to be given up, the session is disconnected.
    pub fn after_write(&mut self, outcome: WriteOutcome) -> (action: WriteAction)
        ensures
            final(self).same_session(old(self)),
            final(self).same_pending(old(self)),
            final(self).next_frame_index() == old(self).next_frame_index(),
            match old(self).endpoint() {
                None => {
                    &&& action == WriteAction::Done
                    &&& final(self).endpoint() is None
                    &&& final(self).last_visuals() == old(self).last_visuals()
                },
                Some(before) => action == action_after(before.unsent(), outcome) && if action
                    == WriteAction::Abort {
                    final(self).disconnected_from(old(self))
                } else {
                    &&& final(self).last_visuals() == old(self).last_visuals()
                    &&& final(self).endpoint() matches Some(after) && after.received()
                        == before.received() && after.unsent() == unsent_after(
                        before.unsent(),
                        outcome,
                    )
                },
            },
    {
        let action = match &mut self.tcp_endpoint {
            None => {
                return WriteAction::Done;
            },
            Some(endpoint) => endpoint.after_write(outcome),
        };
        match action {
            WriteAction::Abort => {
                self.disconnect();
            },
            _ => {},
        }
        action
    }

    /// The state after the start of a tick at `now`, and what it returned.
    pub open spec fn show_begun(
        &self,
        before: &Self,
        now: u64,
        minimum_update_interval: u64,
        pass: Option<Pass>,
    ) -> bool {
        &&& self.same_session(before)
        &&& self.endpoint() == before.endpoint()
        &&& self.next_frame_index() == before.next_frame_index()
        &&& self.last_visuals() == before.last_visuals()
        &&& self.last_frame_time() == before.last_frame_time()
        &&& if !before.is_connected() {
            &&& pass is None
            &&& self.same_pending(before)
        } else if before.pending_input() is None && !heartbeat_due(
            before.last_frame_time(),
            now,
            minimum_update_interval,
        ) {
            &&& pass is None
            &&& self.pending_input() is None
            &&& self.pending_echo() is None
        } else {
            &&& self.pending_input() is None
            &&& self.pending_echo() is None
            &&& pass matches Some(p) && p.time == elapsed(before.started(), now) && p.client_time
                == before.pending_echo() && match before.pending_input() {
                Some(input) => p.input == input,
                None => empty_input(p.input),
            }
        }
    }

    /// Starts the session's tick at `now`: decides whether it renders, and
    /// with what input.
    ///
    /// A session without a connection does nothing. One with pending input
    /// renders with that input. One without renders with empty input, but only
    /// when more than `minimum_update_interval` has passed since it last sent
    /// a frame; else it skips the tick: nothing is rendered and nothing sent.
    pub fn begin_show(&mut self, now: u64, minimum_update_interval: u64) -> (pass: Option<Pass>)
        ensures
            final(self).show_begun(old(self), now, minimum_update_interval, pass),
    {
        if self.tcp_endpoint.is_none() {
            return None;
        }
        let client_time = self.client_time.take();
        let input = match self.input.take() {
            Some(input) => input,
            None => {
                let due: bool = match self.last_frame_time {
                    None => true,
                    Some(last) => now >= last && now - last > minimum_update_interval,
                };
                if due {
                    egui::RawInput::default()
                } else {
                    return None;
                }
            },
        };
        let time: u64 = if now >= self.start_time {
            now - self.start_time
        } else {
            0
        };
        Some(Pass { input, time, client_time })
    }
}

impl<S: Clone> Client<S> {
    /// The state after the end of a tick, and the frame that it returned.
    pub open spec fn show_ended(
        &self,
        before: &Self,
        now: u64,
        client_time: Option<u64>,
        platform_output: egui::PlatformOutput,
        clipped_net_shapes: Seq<S>,
        no_side_effects: bool,
        same_visuals: bool,
        needs_repaint: bool,
        frame: Option<ServerToClientMessage<S>>,
    ) -> bool {
        &&& self.same_session(before)
        &&& self.endpoint() == before.endpoint()
        &&& self.pending_echo() == before.pending_echo()
        &&& if needs_repaint && before.pending_input() is None {
            self.pending_input() matches Some(input) && empty_input(input)
        } else {
            self.pending_input() == before.pending_input()
        }
        &&& if frame_is_due(no_side_effects, same_visuals) && before.next_frame_index()
            < u64::MAX {
            &&& self.next_frame_index() == before.next_frame_index() + 1
            &&& self.last_visuals() == clipped_net_shapes
            &&& self.last_frame_time() == Some(now)
            &&& frame matches Some(
                ServerToClientMessage::Frame {
                    frame_index,
                    platform_output: output,
                    clipped_net_shapes: shapes,
                    client_time: echo,
                },
            ) && frame_index == before.next_frame_index() && output == platform_output
                && echo == client_time && copies(clipped_net_shapes, shapes@)
        } else {
            &&& self.next_frame_index() == before.next_frame_index()
            &&& self.last_visuals() == before.last_visuals()
            &&& self.last_frame_time() == before.last_frame_time()
            &&& frame is None
        }
    }

    /// Ends the session's tick with what the UI pass produced and with what
    /// the comparisons gave, and decides whether a frame is sent.
    ///
    /// `no_side_effects` says that the output asks nothing of the viewer's
    /// platform; `same_visuals` that the shapes equal [`Client::visuals`];
    /// `needs_repaint` that the UI wants another pass at once. With no side
    /// effects and the same visuals nothing is sent and nothing is counted.
    /// Else the frame takes the next index, carries the output, the shapes and
    /// the echo; the shapes become the last visuals, and `now` the time of
    /// the last frame. A session whose counter has reached its last value
    /// sends no more frames. On `needs_repaint` empty input is left pending,
    /// so that the next tick does not wait for the heartbeat.
    pub fn end_show_given(
        &mut self,
        now: u64,
        client_time: Option<u64>,
        platform_output: egui::PlatformOutput,
        clipped_net_shapes: Vec<S>,
        no_side_effects: bool,
        same_visuals: bool,
        needs_repaint: bool,
    ) -> (frame: Option<ServerToClientMessage<S>>)
        ensures
            final(self).show_ended(
                old(self),
                now,
                client_time,
                platform_output,
                clipped_net_shapes@,
                no_side_effects,
                same_visuals,
                needs_repaint,
                frame,
            ),
    {
        let frame = if (no_side_effects && same_visuals) || self.frame_index == u64::MAX {
            None
        } else {
            let frame_index: u64 = self.frame_index;
            self.frame_index = frame_index + 1;
            let message = ServerToClientMessage::Frame {
                frame_index,
                platform_output,
                clipped_net_shapes: clipped_net_shapes.clone(),
                client_time,
            };
            self.last_visuals = clipped_net_shapes;
            self.last_frame_time = Some(now);
            Some(message)
        };
        if needs_repaint && self.input.is_none() {
            self.input = Some(egui::RawInput::default());
        }
        frame
    }
}

/// Two lists of shapes are equal by the shapes' own equality.
pub open spec fn equal_shapes<S: PartialEq>(a: Seq<S>, b: Seq<S>) -> bool {
    &&& a.len() == b.len()
    &&& forall|i: int| 0 <= i < a.len() ==> (#[trigger] a[i]).eq_spec(&b[i])
}

impl<S: Clone + PartialEq> Client<S> {
    /// The state after the end of a tick that made the comparisons itself,
    /// and the frame that it returned: the tick ended as
    /// [`Client::end_show_given`] says, with the output held against the
    /// default output, and the shapes against the last visuals by their own
    /// `==`. What that `==` answers is known where the shapes' equality is.
    pub open spec fn show_compared(
        &self,
        before: &Self,
        now: u64,
        client_time: Option<u64>,
        platform_output: egui::PlatformOutput,
        clipped_net_shapes: Seq<S>,
        needs_repaint: bool,
        frame: Option<ServerToClientMessage<S>>,
    ) -> bool {
        exists|same_visuals: bool|
            {
                &&& #[trigger] self.show_ended(
                    before,
                    now,
                    client_time,
                    platform_output,
                    clipped_net_shapes,
                    no_side_effects(platform_output),
                    same_visuals,
                    needs_repaint,
                    frame,
                )
                &&& S::obeys_eq_spec() ==> same_visuals == equal_shapes(
                    clipped_net_shapes,
                    before.last_visuals(),
                )
            }
    }

    /// Ends the session's tick with what the UI pass produced: compares the
    /// output with the default output and the shapes with the last visuals,
    /// and goes on as [`Client::end_show_given`] does with the two answers.
    pub fn end_show(
        &mut self,
        now: u64,
        client_time: Option<u64>,
        platform_output: egui::PlatformOutput,
        clipped_net_shapes: Vec<S>,
        needs_repaint: bool,
    ) -> (frame: Option<ServerToClientMessage<S>>)
        ensures
            final(self).show_compared(
                old(self),
                now,
                client_time,
                platform_output,
                clipped_net_shapes@,
                needs_repaint,
                frame,
            ),
    {
        let unchanged: bool = is_default_output(&platform_output);
        let same_visuals: bool = clipped_net_shapes == self.last_visuals;
        let ghost shapes = clipped_net_shapes@;
        let frame = self.end_show_given(
            now,
            client_time,
            platform_output,
            clipped_net_shapes,
            unchanged,
            same_visuals,
            needs_repaint,
        );
        assert(unchanged == no_side_effects(platform_output));
        assert(self.show_ended(
            old(self),
            now,
            client_time,
            platform_output,
            shapes,
            no_side_effects(platform_output),
            same_visuals,
            needs_repaint,
            frame,
        ));
        frame
    }
}

/// What a pass of the UI produced for one viewer.
pub struct Rendered<S> {
    /// What the pass asks of the viewer's platform.
    pub platform_output: egui::PlatformOutput,
    /// What the pass painted, laid out for the wire.
    pub clipped_net_shapes: Vec<S>,
    /// The UI wants another pass at once.
    pub needs_repaint: bool,
}

impl<S: Clone + PartialEq> Client<S> {
    /// The state after a whole tick at `now`, and the frame that it returned:
    /// the tick began as [`Client::begin_show`] says; where that gave a pass,
    /// `render` ran it in the session's own UI state, and the tick ended as
    /// [`Client::end_show`] says with what `render` produced.
    pub open spec fn shown<R>(
        &self,
        before: &Self,
        now: u64,
        minimum_update_interval: u64,
        render: R,
        frame: Option<ServerToClientMessage<S>>,
    ) -> bool where R: FnOnce(&egui::Context, ClientId, egui::RawInput, u64) -> Rendered<S> {
        exists|begun: Self, pass: Option<Pass>|
            {
                &&& #[trigger] begun.show_begun(before, now, minimum_update_interval, pass)
                &&& match pass {
                    None => frame is None && *self == begun,
                    Some(p) => exists|rendered: Rendered<S>|
                        {
                            &&& render.ensures(
                                (&before.context(), before.id(), p.input, p.time),
                                rendered,
                            )
                            &&& #[trigger] self.show_compared(
                                &begun,
                                now,
                                p.client_time,
                                rendered.platform_output,
                                rendered.clipped_net_shapes@,
                                rendered.needs_repaint,
                                frame,
                            )
                        },
                }
            }
    }

    /// One tick of the session at `now`: decides whether it renders, lets
    /// `render` run the UI with the input that is due, and decides whether
    /// what came out of it is sent. The frame to send is returned.
    ///
    /// `render` is given the session's UI state, its number, the input, and
    /// the time since the session began, in microseconds.
    pub fn show<R>(&mut self, now: u64, minimum_update_interval: u64, render: R) -> (frame: Option<
        ServerToClientMessage<S>,
    >) where R: FnOnce(&egui::Context, ClientId, egui::RawInput, u64) -> Rendered<S>
        requires
            forall|ctx: &egui::Context, id: ClientId, input: egui::RawInput, time: u64|
                render.requires((ctx, id, input, time)),
        ensures
            final(self).shown(old(self), now, minimum_update_interval, render, frame),
    {
        let pass = self.begin_show(now, minimum_update_interval);
        let ghost begun = *self;
        let ghost given = pass;
        match pass {
            None => {
                assert(begun.show_begun(old(self), now, minimum_update_interval, given));
                None
            },
            Some(Pass { input, time, client_time }) => {
                let rendered = render(&self.egui_ctx, self.client_id, input, time);
                let ghost made = rendered;
                let Rendered { platform_output, clipped_net_shapes, needs_repaint } = rendered;
                let frame = self.end_show(
                    now,
                    client_time,
                    platform_output,
                    clipped_net_shapes,
                    needs_repaint,
                );
                assert(begun.show_begun(old(self), now, minimum_update_interval, given));
                assert(begun.context() == old(self).context() && begun.id() == old(self).id());
                assert(render.ensures(
                    (&old(self).context(), old(self).id(), input, time),
                    made,
                ));
                assert(self.show_compared(
                    &begun,
                    now,
                    client_time,
                    made.platform_output,
                    made.clipped_net_shapes@,
                    made.needs_repaint,
                    frame,
                ));
                frame
            },
        }
    }
}

/// What a non-blocking accept on the listening socket came to.
#[derive(Clone, Copy, Debug, PartialEq, Eq, Structural)]
pub enum AcceptOutcome {
    /// A viewer connected from this address.
    Connection(PeerAddr),
    /// No viewer is waiting.
    WouldBlock,
    /// The listening socket reported any other error.
    Failed,
}

/// What the host does after an accept.
#[derive(Clone, Copy, Debug, PartialEq, Eq, Structural)]
pub enum AcceptAction {
    /// The viewer has the session at this place; accept again.
    Accepted(usize),
    /// No more viewers are waiting: go on with the tick.
    Done,
    /// The tick fails with a transport error.
    Fail,
}

/// All sessions of a host, in the order in which their viewers first connected.
pub struct Server<S> {
    next_client_id: u64,
    clients: Vec<Client<S>>,
    minimum_update_interval: u64,
}

impl<S> Server<S> {
    /// The sessions, oldest first.
    pub closed spec fn sessions(&self) -> Seq<Client<S>> {
        self.clients@
    }

    /// The number that the next new session gets.
    pub closed spec fn next_id(&self) -> u64 {
        self.next_client_id
    }

    /// How long a session without input waits, after a frame, before it
    /// renders again.
    pub closed spec fn interval(&self) -> u64 {
        self.minimum_update_interval
    }

    /// Each session is numbered by its place, and no two sessions have the
    /// same address.
    pub open spec fn wf(&self) -> bool {
        &&& self.next_id() == self.sessions().len()
        &&& forall|i: int|
            0 <= i < self.sessions().len() ==> (#[trigger] self.sessions()[i]).id() == ClientId(
                i as u64,
            )
        &&& forall|i: int, j: int|
            0 <= i < j < self.sessions().len() ==> (#[trigger] self.sessions()[i]).peer() != (
            #[trigger] self.sessions()[j]).peer()
    }

    /// The table after a viewer from `addr` was accepted at `now` into the
    /// table `before`, and the place of its session.
    ///
    /// A session with that address is taken up again, with a fresh connection
    /// and all else as it was. Only where there is none, a new session is
    /// added behind the others, under the next number.
    pub open spec fn accepted_from(
        &self,
        before: &Self,
        addr: PeerAddr,
        now: u64,
        place: int,
    ) -> bool {
        &&& self.interval() == before.interval()
        &&& 0 <= place <= before.sessions().len()
        &&& forall|j: int| 0 <= j < place ==> (#[trigger] before.sessions()[j]).peer() != addr
        &&& forall|j: int|
            0 <= j < before.sessions().len() && j != place ==> #[trigger] self.sessions()[j]
                == before.sessions()[j]
        &&& if place < before.sessions().len() {
            &&& before.sessions()[place].peer() == addr
            &&& self.sessions().len() == before.sessions().len()
            &&& self.next_id() == before.next_id()
            &&& self.sessions()[place].connected_from(&before.sessions()[place])
        } else {
            &&& self.sessions().len() == before.sessions().len() + 1
            &&& self.next_id() == if before.next_id() < u64::MAX {
                (before.next_id() + 1) as u64
            } else {
                before.next_id()
            }
            &&& self.sessions()[place].id() == ClientId(before.next_id())
            &&& self.sessions()[place].peer() == addr
            &&& self.sessions()[place].started() == now
            &&& self.sessions()[place].next_frame_index() == 0
            &&& self.sessions()[place].pending_input() is None
            &&& self.sessions()[place].pending_echo() is None
            &&& self.sessions()[place].last_frame_time() is None
            &&& self.sessions()[place].last_visuals() == Seq::<S>::empty()
            &&& self.sessions()[place].endpoint() matches Some(endpoint) && endpoint.received()
                == Seq::<u8>::empty() && endpoint.unsent() == Seq::<u8>::empty()
        }
    }

    /// A host without sessions, with the default update interval.
    pub fn new() -> (server: Self)
        ensures
            server.wf(),
            server.sessions() == Seq::<Client<S>>::empty(),
            server.interval() == DEFAULT_MINIMUM_UPDATE_INTERVAL,
    {
        Server {
            next_client_id: 0,
            clients: Vec::new(),
            minimum_update_interval: DEFAULT_MINIMUM_UPDATE_INTERVAL,
        }
    }

    /// Sends a new frame to each viewer at least this often, in microseconds.
    pub fn set_minimum_update_interval(&mut self, micros: u64)
        ensures
            final(self).interval() == micros,
            final(self).sessions() == old(self).sessions(),
            final(self).next_id() == old(self).next_id(),
    {
        self.minimum_update_interval = micros;
    }

    /// How long a session without input waits, after a frame, before it
    /// renders again.
    pub fn minimum_update_interval(&self) -> (micros: u64)
        ensures
            micros == self.interval(),
    {
        self.minimum_update_interval
    }

    /// The number of sessions.
    pub fn len(&self) -> (n: usize)
        ensures
            n == self.sessions().len(),
    {
        self.clients.len()
    }

    /// The place of the session with this address.
    pub fn find(&self, addr: PeerAddr) -> (place: Option<usize>)
        ensures
            match place {
                Some(i) => i < self.sessions().len() && self.sessions()[i as int].peer() == addr
                    && forall|j: int| 0 <= j < i ==> (#[trigger] self.sessions()[j]).peer() != addr,
                None => forall|j: int|
                    0 <= j < self.sessions().len() ==> (#[trigger] self.sessions()[j]).peer()
                        != addr,
            },
    {
        let mut i: usize = 0;
        while i < self.clients.len()
            invariant
                i <= self.clients.len(),
                forall|j: int| 0 <= j < i ==> (#[trigger] self.sessions()[j]).peer() != addr,
            decreases self.clients.len() - i,
        {
            if self.clients[i].addr == addr {
                return Some(i);
            }
            i = i + 1;
        }
        None
    }

    /// The session at `place`.
    pub fn client(&self, place: usize) -> (client: &Client<S>)
        requires
            place < self.sessions().len(),
        ensures
            *client == self.sessions()[place as int],
    {
        &self.clients[place]
    }

    /// The session at `place`, to drive its tick.
    pub fn client_mut(&mut self, place: usize) -> (client: &mut Client<S>)
        requires
            place < old(self).sessions().len(),
        ensures
            *client == old(self).sessions()[place as int],
            final(self).sessions() == old(self).sessions().update(place as int, *final(client)),
            final(self).next_id() == old(self).next_id(),
            final(self).interval() == old(self).interval(),
    {
        &mut self.clients[place]
    }

    /// Takes in a viewer that connected from `addr` at `now`, and returns the
    /// place of its session.
    pub fn accept(&mut self, addr: PeerAddr, now: u64) -> (place: usize)
        ensures
            final(self).accepted_from(old(self), addr, now, place as int),
            old(self).wf() ==> final(self).wf(),
    {
        match self.find(addr) {
            Some(place) => {
                let ghost before = self.clients@;
                let client = &mut self.clients[place];
                client.connect();
                proof {
                    let after = self.clients@;
                    assert(after =~= before.update(place as int, after[place as int]));
                    if old(self).wf() {
                        assert forall|i: int| 0 <= i < after.len() implies (
                        #[trigger] after[i]).id() == ClientId(i as u64) && after[i].peer()
                            == before[i].peer() by {
                            assert(before[i].id() == ClientId(i as u64));
                        }
                        assert forall|i: int, j: int| 0 <= i < j < after.len() implies (
                        #[trigger] after[i]).peer() != (#[trigger] after[j]).peer() by {
                            assert(before[i].peer() != before[j].peer());
                        }
                    }
                }
                place
            },
            None => {
                let ghost before = self.clients@;
                let place: usize = self.clients.len();
                let mut client: Client<S> = Client::new(ClientId(self.next_client_id), addr, now);
                client.connect();
                self.clients.push(client);
                let count: usize = self.clients.len();
                assert(before.len() + 1 == count);
                if self.next_client_id < u64::MAX {
                    self.next_client_id = self.next_client_id + 1;
                }
                proof {
                    let after = self.clients@;
                    assert forall|j: int| 0 <= j < before.len() implies #[trigger] after[j]
                        == before[j] by {}
                    if old(self).wf() {
                        assert forall|i: int| 0 <= i < after.len() implies (
                        #[trigger] after[i]).id() == ClientId(i as u64) by {
                            if i < before.len() {
                                assert(before[i].id() == ClientId(i as u64));
                            }
                        }
                        assert forall|i: int, j: int| 0 <= i < j < after.len() implies (
                        #[trigger] after[i]).peer() != (#[trigger] after[j]).peer() by {
                            if j < before.len() {
                                assert(before[i].peer() != before[j].peer());
                            } else {
                                assert(before[i].peer() != addr);
                            }
                        }
                    }
                }
                place
            },
        }
    }

    /// Records what an accept on the listening socket came to, and says how
    /// the host goes on.
    pub fn on_accept(&mut self, outcome: AcceptOutcome, now: u64) -> (action: AcceptAction)
        ensures
            old(self).wf() ==> final(self).wf(),
            match outcome {
                AcceptOutcome::Connection(addr) => action matches AcceptAction::Accepted(place)
                    && final(self).accepted_from(old(self), addr, now, place as int),
                AcceptOutcome::WouldBlock => action == AcceptAction::Done && *final(self) == *old(
                    self,
                ),
                AcceptOutcome::Failed => action == AcceptAction::Fail && *final(self) == *old(self),
            },
    {
        match outcome {
            AcceptOutcome::Connection(addr) => AcceptAction::Accepted(self.accept(addr, now)),
            AcceptOutcome::WouldBlock => AcceptAction::Done,
            AcceptOutcome::Failed => AcceptAction::Fail,
        }
    }
}

/// One for a frame that was sent, zero for one that was held back.
pub open spec fn frames_in<S>(frame: Option<ServerToClientMessage<S>>) -> nat {
    if frame is Some {
        1
    } else {
        0
    }
}

/// The index that a frame carries.
pub open spec fn index_of<S>(frame: ServerToClientMessage<S>) -> u64 {
    match frame {
        ServerToClientMessage::Frame { frame_index, .. } => frame_index,
        ServerToClientMessage::Fonts { .. } => 0,
    }
}

/// One step in the life of a session, as far as the frame counter goes: a
/// step that sends a frame gives it the index that was next and moves the
/// counter on by one; any other step leaves the counter alone. The session
/// stays the same session.
pub open spec fn counted<S>(
    before: Client<S>,
    after: Client<S>,
    frame: Option<ServerToClientMessage<S>>,
) -> bool {
    &&& after.same_session(&before)
    &&& match frame {
        Some(message) => {
            &&& message is Frame
            &&& index_of(message) == before.next_frame_index()
            &&& after.next_frame_index() == before.next_frame_index() + 1
        },
        None => after.next_frame_index() == before.next_frame_index(),
    }
}

/// The end of a tick is such a step, whatever it was given.
pub proof fn lemma_show_is_counted<S: Clone>(
    before: Client<S>,
    after: Client<S>,
    now: u64,
    client_time: Option<u64>,
    platform_output: egui::PlatformOutput,
    clipped_net_shapes: Seq<S>,
    no_side_effects: bool,
    same_visuals: bool,
    needs_repaint: bool,
    frame: Option<ServerToClientMessage<S>>,
)
    requires
        after.show_ended(
            &before,
            now,
            client_time,
            platform_output,
            clipped_net_shapes,
            no_side_effects,
            same_visuals,
            needs_repaint,
            frame,
        ),
    ensures
        counted(before, after, frame),
{
}

/// So are a disconnect and a new connection, which send nothing.
pub proof fn lemma_connection_is_counted<S>(before: Client<S>, after: Client<S>)
    requires
        after.disconnected_from(&before) || after.connected_from(&before),
    ensures
        counted(before, after, None),
{
}

/// Through any number of steps the counter never goes back.
pub proof fn lemma_counter_never_goes_back<S>(
    states: Seq<Client<S>>,
    frames: Seq<Option<ServerToClientMessage<S>>>,
    from: int,
    to: int,
)
    requires
        states.len() == frames.len() + 1,
        forall|k: int|
            0 <= k < frames.len() ==> counted(#[trigger] states[k], states[k + 1], frames[k]),
        0 <= from <= to < states.len(),
    ensures
        states[from].next_frame_index() <= states[to].next_frame_index(),
        states[to].same_session(&states[from]),
    decreases to - from,
{
    if from < to {
        lemma_counter_never_goes_back(states, frames, from, to - 1);
        assert(counted(states[to - 1], states[to - 1 + 1], frames[to - 1]));
    }
}

/// In the whole life of a session, through ticks, disconnects and new
/// connections, a later frame always carries a larger index than an earlier
/// one: no index is used twice.
pub proof fn lemma_frame_indices_increase<S>(
    states: Seq<Client<S>>,
    frames: Seq<Option<ServerToClientMessage<S>>>,
    earlier: int,
    later: int,
)
    requires
        states.len() == frames.len() + 1,
        forall|k: int|
            0 <= k < frames.len() ==> counted(#[trigger] states[k], states[k + 1], frames[k]),
        0 <= earlier < later < frames.len(),
        frames[earlier] is Some,
        frames[later] is Some,
    ensures
        index_of(frames[earlier]->0) < index_of(frames[later]->0),
        states[later].context() == states[earlier].context(),
{
    assert(counted(states[earlier], states[earlier + 1], frames[earlier]));
    assert(counted(states[later], states[later + 1], frames[later]));
    lemma_counter_never_goes_back(states, frames, earlier + 1, later);
    lemma_counter_never_goes_back(states, frames, earlier, later);
}

/// Two ticks in a row, of which the second produced the visuals that the first
/// sent and no side effects, send one frame between them: the second tick
/// sends nothing and counts nothing.
///
/// The first tick must itself have had something to send, and a frame index
/// left to send it under.
pub proof fn lemma_diff_suppression<S: Clone>(
    start: Client<S>,
    middle: Client<S>,
    end: Client<S>,
    first_time: u64,
    first_echo: Option<u64>,
    first_output: egui::PlatformOutput,
    first_shapes: Seq<S>,
    first_no_side_effects: bool,
    first_same_visuals: bool,
    first_needs_repaint: bool,
    first_frame: Option<ServerToClientMessage<S>>,
    second_time: u64,
    second_echo: Option<u64>,
    second_output: egui::PlatformOutput,
    second_shapes: Seq<S>,
    second_needs_repaint: bool,
    second_frame: Option<ServerToClientMessage<S>>,
)
    requires
        frame_is_due(first_no_side_effects, first_same_visuals),
        start.next_frame_index() < u64::MAX,
        middle.show_ended(
            &start,
            first_time,
            first_echo,
            first_output,
            first_shapes,
            first_no_side_effects,
            first_same_visuals,
            first_needs_repaint,
            first_frame,
        ),
        end.show_ended(
            &middle,
            second_time,
            second_echo,
            second_output,
            second_shapes,
            true,
            true,
            second_needs_repaint,
            second_frame,
        ),
    ensures
        frames_in(first_frame) + frames_in(second_frame) == 1,
        second_frame is None,
        end.next_frame_index() == middle.next_frame_index(),
        end.last_visuals() == first_shapes,
        end.last_frame_time() == Some(first_time),
{
}

/// The same where the session makes the comparisons itself, and the shapes'
/// `==` is known: of two ticks in a row that end with the same shapes and
/// with an output that equals the default one, the first sends these shapes,
/// if they are not what was sent last, and the second sends nothing. The
/// counter moves on by one, and the shapes are the last visuals.
pub proof fn lemma_diff_suppression_compared<S: Clone + PartialEq>(
    start: Client<S>,
    middle: Client<S>,
    end: Client<S>,
    first_time: u64,
    first_echo: Option<u64>,
    first_output: egui::PlatformOutput,
    first_shapes: Seq<S>,
    first_needs_repaint: bool,
    first_frame: Option<ServerToClientMessage<S>>,
    second_time: u64,
    second_echo: Option<u64>,
    second_output: egui::PlatformOutput,
    second_shapes: Seq<S>,
    second_needs_repaint: bool,
    second_frame: Option<ServerToClientMessage<S>>,
)
    requires
        S::obeys_eq_spec(),
        start.next_frame_index() < u64::MAX,
        !equal_shapes(first_shapes, start.last_visuals()),
        equal_shapes(second_shapes, first_shapes),
        no_side_effects(second_output),
        middle.show_compared(
            &start,
            first_time,
            first_echo,
            first_output,
            first_shapes,
            first_needs_repaint,
            first_frame,
        ),
        end.show_compared(
            &middle,
            second_time,
            second_echo,
            second_output,
            second_shapes,
            second_needs_repaint,
            second_frame,
        ),
    ensures
        first_frame matches Some(message) && message is Frame && index_of(message)
            == start.next_frame_index(),
        second_frame is None,
        frames_in(first_frame) + frames_in(second_frame) == 1,
        end.next_frame_index() == start.next_frame_index() + 1,
        end.last_visuals() == first_shapes,
{
}

/// The same of two whole ticks that are both due, in which the UI paints the
/// same shapes and has no side effects.
pub proof fn lemma_diff_suppression_shown<S: Clone + PartialEq, R1, R2>(
    start: Client<S>,
    middle: Client<S>,
    end: Client<S>,
    minimum_update_interval: u64,
    shapes: Seq<S>,
    first_time: u64,
    first_render: R1,
    first_frame: Option<ServerToClientMessage<S>>,
    second_time: u64,
    second_render: R2,
    second_frame: Option<ServerToClientMessage<S>>,
) where
    R1: FnOnce(&egui::Context, ClientId, egui::RawInput, u64) -> Rendered<S>,
    R2: FnOnce(&egui::Context, ClientId, egui::RawInput, u64) -> Rendered<S>,

    requires
        S::obeys_eq_spec(),
        start.is_connected(),
        start.next_frame_index() < u64::MAX,
        !equal_shapes(shapes, start.last_visuals()),
        equal_shapes(shapes, shapes),
        start.pending_input() is Some || heartbeat_due(
            start.last_frame_time(),
            first_time,
            minimum_update_interval,
        ),
        middle.pending_input() is Some || heartbeat_due(
            middle.last_frame_time(),
            second_time,
            minimum_update_interval,
        ),
        forall|
            ctx: &egui::Context,
            id: ClientId,
            input: egui::RawInput,
            time: u64,
            made: Rendered<S>,
        |
            #[trigger] first_render.ensures((ctx, id, input, time), made) ==> no_side_effects(
                made.platform_output,
            ) && made.clipped_net_shapes@ == shapes,
        forall|
            ctx: &egui::Context,
            id: ClientId,
            input: egui::RawInput,
            time: u64,
            made: Rendered<S>,
        |
            #[trigger] second_render.ensures((ctx, id, input, time), made) ==> no_side_effects(
                made.platform_output,
            ) && made.clipped_net_shapes@ == shapes,
        middle.shown(&start, first_time, minimum_update_interval, first_render, first_frame),
        end.shown(&middle, second_time, minimum_update_interval, second_render, second_frame),
    ensures
        first_frame matches Some(message) && message is Frame && index_of(message)
            == start.next_frame_index(),
        second_frame is None,
        frames_in(first_frame) + frames_in(second_frame) == 1,
        end.next_frame_index() == start.next_frame_index() + 1,
        end.last_visuals() == shapes,
{
}

/// A session that has sent frames, is disconnected and is connected again
/// sends what the UI paints in its next tick that is due, if that is
/// anything at all: nothing is held back after a disconnect. The frame
/// carries the index that was next before the disconnect, and so a larger
/// one than any frame before it; the UI state is the one that was retained.
pub proof fn lemma_resumption_shown<S: Clone + PartialEq, R>(
    sent: Client<S>,
    dropped: Client<S>,
    resumed: Client<S>,
    after: Client<S>,
    minimum_update_interval: u64,
    now: u64,
    render: R,
    frame: Option<ServerToClientMessage<S>>,
) where R: FnOnce(&egui::Context, ClientId, egui::RawInput, u64) -> Rendered<S>
    requires
        S::obeys_eq_spec(),
        sent.next_frame_index() < u64::MAX,
        dropped.disconnected_from(&sent),
        resumed.connected_from(&dropped),
        resumed.pending_input() is Some || heartbeat_due(
            resumed.last_frame_time(),
            now,
            minimum_update_interval,
        ),
        forall|
            ctx: &egui::Context,
            id: ClientId,
            input: egui::RawInput,
            time: u64,
            made: Rendered<S>,
        |
            #[trigger] render.ensures((ctx, id, input, time), made)
                ==> made.clipped_net_shapes@.len() > 0,
        after.shown(&resumed, now, minimum_update_interval, render, frame),
    ensures
        frame matches Some(message) && message is Frame && index_of(message)
            == sent.next_frame_index(),
        after.next_frame_index() == sent.next_frame_index() + 1,
        after.context() == sent.context(),
        after.id() == sent.id(),
{
}

/// A session that is disconnected and then connected again has the UI
/// engine's state and the frame counter that it had, and the first frame
/// that it sends then carries a larger index than the last one before.
pub proof fn lemma_session_resumption<S: Clone>(
    before: Client<S>,
    sent: Client<S>,
    dropped: Client<S>,
    resumed: Client<S>,
    after: Client<S>,
    earlier_time: u64,
    earlier_echo: Option<u64>,
    earlier_output: egui::PlatformOutput,
    earlier_shapes: Seq<S>,
    earlier_no_side_effects: bool,
    earlier_same_visuals: bool,
    earlier_needs_repaint: bool,
    earlier_frame: ServerToClientMessage<S>,
    later_time: u64,
    later_echo: Option<u64>,
    later_output: egui::PlatformOutput,
    later_shapes: Seq<S>,
    later_no_side_effects: bool,
    later_same_visuals: bool,
    later_needs_repaint: bool,
    later_frame: ServerToClientMessage<S>,
)
    requires
        sent.show_ended(
            &before,
            earlier_time,
            earlier_echo,
            earlier_output,
            earlier_shapes,
            earlier_no_side_effects,
            earlier_same_visuals,
            earlier_needs_repaint,
            Some(earlier_frame),
        ),
        dropped.disconnected_from(&sent),
        resumed.connected_from(&dropped),
        after.show_ended(
            &resumed,
            later_time,
            later_echo,
            later_output,
            later_shapes,
            later_no_side_effects,
            later_same_visuals,
            later_needs_repaint,
            Some(later_frame),
        ),
    ensures
        resumed.context() == sent.context(),
        resumed.next_frame_index() == sent.next_frame_index(),
        resumed.id() == sent.id(),
        resumed.is_connected(),
        resumed.last_visuals() == Seq::<S>::empty(),
        index_of(later_frame) > index_of(earlier_frame),
{
}

} // verus!
