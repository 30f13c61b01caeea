//! Session and wire protocol layer for showing a user interface on remote viewers.
//!
//! * Client: the thin client that has a screen, a keyboard etc.
//! * Server: what runs the egui code.
//!
//! A host runs its UI once per tick for each viewer, and sends what came out
//! of it as packets; a viewer sends its input back. This crate holds what is
//! decided on the way: how packets are framed and found again in a stream of
//! bytes ([`protocol`], [`endpoint`]), how messages are compressed
//! ([`codec`]), what a host keeps of each viewer and when it sends a frame
//! ([`server`]), what a viewer keeps and measures ([`client`], [`history`]),
//! and how shapes are laid out for the wire ([`net_shape`]).
//!
//! Sockets, threads, clocks and the serializer are the caller's. Times are
//! whole microseconds, and a quotient is handed out undivided, as a
//! [`history::Ratio`].

pub mod client;
pub mod codec;
pub mod endpoint;
pub mod error;
pub mod history;
pub mod message;
pub mod net_shape;
pub mod protocol;
pub mod server;
pub mod ui;

pub use client::Client;
pub use error::{error_display_chain, Error};
pub use message::{ClientToServerMessage, EguiFrame, ServerToClientMessage};
pub use server::{ClientId, Server};
