//! The values of the UI engine that pass through a session.
//!
//! The engine is egui. A session carries its values and leaves what is in
//! them to the engine, with one exception: it knows how newer input, and
//! newer output, is added onto older. For that, input and output are taken
//! with the fields that the engine gives them.

use vstd::prelude::*;

verus! {

/// The engine's retained state for one viewer: window positions, animations.
#[verifier::external_type_specification]
#[verifier::external_body]
pub struct ExContext(egui::Context);

/// The fonts that a viewer needs to lay out text.
#[verifier::external_type_specification]
#[verifier::external_body]
pub struct ExFontDefinitions(egui::FontDefinitions);

/// What a viewer paints: tessellated primitives, each with its clip rectangle.
#[verifier::external_type_specification]
#[verifier::external_body]
pub struct ExClippedPrimitive(egui::ClippedPrimitive);

/// The keys that change the meaning of others: shift, control and their like.
#[verifier::external_type_specification]
#[verifier::external_body]
pub struct ExModifiers(egui::Modifiers);

/// Something that the viewer's user did.
#[verifier::external_type_specification]
#[verifier::external_body]
pub struct ExEvent(egui::Event);

/// A file that hovers over the viewer's window.
#[verifier::external_type_specification]
#[verifier::external_body]
pub struct ExHoveredFile(egui::HoveredFile);

/// A file that was dropped into the viewer's window.
#[verifier::external_type_specification]
#[verifier::external_body]
pub struct ExDroppedFile(egui::DroppedFile);

/// The shape of the mouse cursor.
#[verifier::external_type_specification]
#[verifier::external_body]
pub struct ExCursorIcon(egui::CursorIcon);

/// An address to open in a browser.
#[verifier::external_type_specification]
#[verifier::external_body]
pub struct ExOpenUrl(egui::output::OpenUrl);

/// Something that happened in the UI, for a screen reader.
#[verifier::external_type_specification]
#[verifier::external_body]
pub struct ExOutputEvent(egui::output::OutputEvent);

/// A snapshot of the viewer's input.
#[verifier::external_type_specification]
pub struct ExRawInput(egui::RawInput);

/// The side effects that a pass of the UI asks of the viewer's platform.
#[verifier::external_type_specification]
pub struct ExPlatformOutput(egui::PlatformOutput);

/// `newer` where it says something, else `older`.
pub open spec fn newer_or<T>(newer: Option<T>, older: Option<T>) -> Option<T> {
    if newer is Some {
        newer
    } else {
        older
    }
}

/// `merged` is `older` with `newer` added on: the lists of events and of
/// files grow at their end, in the order of arrival; of the screen, the
/// pixels per point and the texture size the newer value counts where there
/// is one; all else is as in `newer`.
pub open spec fn merged_input(
    older: egui::RawInput,
    newer: egui::RawInput,
    merged: egui::RawInput,
) -> bool {
    &&& merged.events@ == older.events@ + newer.events@
    &&& merged.hovered_files@ == older.hovered_files@ + newer.hovered_files@
    &&& merged.dropped_files@ == older.dropped_files@ + newer.dropped_files@
    &&& merged.screen_rect == newer_or(newer.screen_rect, older.screen_rect)
    &&& merged.pixels_per_point == newer_or(newer.pixels_per_point, older.pixels_per_point)
    &&& merged.max_texture_side == newer_or(newer.max_texture_side, older.max_texture_side)
    &&& merged.time == newer.time
    &&& merged.predicted_dt == newer.predicted_dt
    &&& merged.modifiers == newer.modifiers
    &&& merged.has_focus == newer.has_focus
}

/// Nothing happened in this input, and it says nothing of the screen.
pub open spec fn empty_input(input: egui::RawInput) -> bool {
    &&& input.events@.len() == 0
    &&& input.hovered_files@.len() == 0
    &&& input.dropped_files@.len() == 0
    &&& input.screen_rect is None
    &&& input.pixels_per_point is None
    &&& input.max_texture_side is None
    &&& input.time is None
    &&& input.has_focus
}

/// `merged` is `older` with `newer` added on: the events grow at their end;
/// an address to open and a text to copy stay until a newer one comes; of the
/// text cursor the newer place counts where there is one; all else is as in
/// `newer`.
pub open spec fn merged_output(
    older: egui::PlatformOutput,
    newer: egui::PlatformOutput,
    merged: egui::PlatformOutput,
) -> bool {
    &&& merged.events@ == older.events@ + newer.events@
    &&& merged.cursor_icon == newer.cursor_icon
    &&& merged.open_url == newer_or(newer.open_url, older.open_url)
    &&& merged.copied_text@ == if newer.copied_text@.len() > 0 {
        newer.copied_text@
    } else {
        older.copied_text@
    }
    &&& merged.mutable_text_under_cursor == newer.mutable_text_under_cursor
    &&& merged.text_cursor_pos == newer_or(newer.text_cursor_pos, older.text_cursor_pos)
}

/// This output asks nothing of the viewer's platform but, at most, a cursor.
pub open spec fn empty_output(output: egui::PlatformOutput) -> bool {
    &&& output.events@.len() == 0
    &&& output.open_url is None
    &&& output.copied_text@.len() == 0
    &&& !output.mutable_text_under_cursor
    &&& output.text_cursor_pos is None
}

/// The answer of the cursor icon's `==` against the default icon.
pub uninterp spec fn default_cursor(icon: egui::CursorIcon) -> bool;

/// This output equals the default one: it asks nothing of the viewer's
/// platform, and its cursor is the default cursor.
pub open spec fn no_side_effects(output: egui::PlatformOutput) -> bool {
    default_cursor(output.cursor_icon) && empty_output(output)
}

/// Compares an output with `PlatformOutput::default()` by the `==` of egui,
/// which compares field by field: the cursor icon with the default icon, and
/// the events, the address to open, the text to copy and the text cursor with
/// none.
#[verifier::external_body]
pub(crate) fn is_default_output(output: &egui::PlatformOutput) -> (answer: bool)
    ensures
        answer == (default_cursor(output.cursor_icon) && empty_output(*output)),
{
    *output == egui::PlatformOutput::default()
}

/// `RawInput::append` adds newer input onto older, field by field.
pub assume_specification[ egui::RawInput::append ](
    existing: &mut egui::RawInput,
    newer: egui::RawInput,
)
    ensures
        merged_input(*old(existing), newer, *final(existing)),
;

/// `PlatformOutput::append` adds newer output onto older, field by field.
pub assume_specification[ egui::PlatformOutput::append ](
    existing: &mut egui::PlatformOutput,
    newer: egui::PlatformOutput,
)
    ensures
        merged_output(*old(existing), newer, *final(existing)),
;

/// The default input is one in which nothing happened.
pub assume_specification[ <egui::RawInput as core::default::Default>::default ]() -> (input:
    egui::RawInput)
    ensures
        empty_input(input),
;

/// The default output has no side effects.
pub assume_specification[ <egui::PlatformOutput as core::default::Default>::default ]() -> (output:
    egui::PlatformOutput)
    ensures
        empty_output(output),
;

/// A fresh engine state.
pub assume_specification[ <egui::Context as core::default::Default>::default ]() -> egui::Context;

/// Two outputs ask the same of the viewer's platform.
pub open spec fn same_output(a: egui::PlatformOutput, b: egui::PlatformOutput) -> bool {
    &&& a.events@ == b.events@
    &&& a.cursor_icon == b.cursor_icon
    &&& a.open_url == b.open_url
    &&& a.copied_text@ == b.copied_text@
    &&& a.mutable_text_under_cursor == b.mutable_text_under_cursor
    &&& a.text_cursor_pos == b.text_cursor_pos
}

/// Newer output that is added onto an empty one comes out as it went in.
pub proof fn lemma_first_output(
    older: egui::PlatformOutput,
    newer: egui::PlatformOutput,
    merged: egui::PlatformOutput,
)
    requires
        empty_output(older),
        merged_output(older, newer, merged),
    ensures
        same_output(merged, newer),
{
    assert(older.events@ + newer.events@ =~= newer.events@);
    assert(older.copied_text@ =~= Seq::<char>::empty());
    if newer.copied_text@.len() == 0 {
        assert(newer.copied_text@ =~= older.copied_text@);
    }
}

} // verus!
