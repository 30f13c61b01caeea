//! The messages that a viewer and a host exchange.
//!
//! Times are whole microseconds. What the UI engine produces travels inside a
//! message untouched; the wire shapes are of a type that the caller chooses.

use vstd::prelude::*;

verus! {

/// What a viewer sends to the host.
pub enum ClientToServerMessage {
    /// The input since the last message.
    Input {
        raw_input: egui::RawInput,
        /// The viewer's clock when it sent this, in microseconds since the
        /// epoch. The host echoes it, and the viewer measures latency by it.
        client_time: u64,
    },
    /// The viewer leaves.
    Goodbye,
}

/// What the host sends to a viewer.
pub enum ServerToClientMessage<S> {
    /// The fonts by which the viewer lays out the text of later frames.
    Fonts { font_definitions: egui::FontDefinitions },
    /// What to paint.
    Frame {
        /// Counts the frames of one session; never used twice.
        frame_index: u64,
        platform_output: egui::PlatformOutput,
        clipped_net_shapes: Vec<S>,
        /// The `client_time` of the input that this frame answers, if any.
        client_time: Option<u64>,
    },
}

/// The newest state that a viewer has to show.
pub struct EguiFrame {
    pub frame_index: u64,
    pub platform_output: egui::PlatformOutput,
    pub clipped_meshes: Vec<egui::ClippedPrimitive>,
}

impl Default for EguiFrame {
    /// Frame zero, with nothing to paint.
    fn default() -> (frame: Self)
        ensures
            frame.frame_index == 0,
            frame.clipped_meshes@ == Seq::<egui::ClippedPrimitive>::empty(),
            crate::ui::empty_output(frame.platform_output),
    {
        EguiFrame {
            frame_index: 0,
            platform_output: egui::PlatformOutput::default(),
            clipped_meshes: Vec::new(),
        }
    }
}

} // verus!
