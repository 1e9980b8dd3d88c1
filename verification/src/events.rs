//! Per-frame input decisions.
//!
//! The window shell polls one batch of pending events each frame and hands
//! each event, together with the movement keys currently held, to
//! [`process_event`].  The function updates the panning state and answers
//! with the action the shell must perform: resize the viewport, close the
//! window, or carry on.  [`translation_changed`] tells the shell whether the
//! vertex data must be regenerated and re-uploaded this frame.

use vstd::prelude::*;

use crate::settings::{
    KeysHeld, Settings, SettingsView, in_motion_bounds, settings_moved, settings_reset,
};

verus! {

/// One window or input event, as the shell reports it.
#[derive(Clone, Copy, Debug, PartialEq, Eq, Structural)]
pub enum InputEvent {
    /// The framebuffer took a new pixel size.
    FramebufferResize { width: i32, height: i32 },
    /// The user asked to close the window (Escape with Alt held).
    CloseRequested,
    /// A movement key (W, A, S or D) was released.
    MovementKeyReleased,
    /// Any other event; it carries no decision.
    Other,
}

/// What the shell must do after an event is processed.
#[derive(Clone, Copy, Debug, PartialEq, Eq, Structural)]
pub enum EventAction {
    /// Set the viewport to the new pixel size.
    Resize { width: i32, height: i32 },
    /// Flag the window to close.
    Close,
    /// Nothing beyond the state update.
    Continue,
}

/// The panning state after one event: the held keys move the figure first,
/// and a movement-key release then resets both axes' acceleration.
pub open spec fn event_settings(s: SettingsView, keys: KeysHeld, event: InputEvent) -> SettingsView {
    let moved = settings_moved(s, keys);
    if event is MovementKeyReleased {
        settings_reset(moved)
    } else {
        moved
    }
}

/// The action one event demands of the shell.
pub open spec fn event_action(event: InputEvent) -> EventAction {
    match event {
        InputEvent::FramebufferResize { width, height } => EventAction::Resize { width, height },
        InputEvent::CloseRequested => EventAction::Close,
        InputEvent::MovementKeyReleased => EventAction::Continue,
        InputEvent::Other => EventAction::Continue,
    }
}

/// Process one pending event: apply the held movement keys to the panning
/// state, reset the acceleration on a movement-key release, and return the
/// action the shell must perform.
pub fn process_event(settings: &mut Settings, keys: &KeysHeld, event: &InputEvent) -> (a:
    EventAction)
    requires
        in_motion_bounds(old(settings)@),
    ensures
        final(settings)@ == event_settings(old(settings)@, *keys, *event),
        a == event_action(*event),
{
    settings.move_img(keys);
    match event {
        InputEvent::FramebufferResize { width, height } => EventAction::Resize {
            width: *width,
            height: *height,
        },
        InputEvent::CloseRequested => EventAction::Close,
        InputEvent::MovementKeyReleased => {
            settings.reset_params();
            EventAction::Continue
        },
        InputEvent::Other => EventAction::Continue,
    }
}

/// Whether the translation differs between the previous and the current
/// frame; only then must the vertex data be regenerated and re-uploaded.
pub fn translation_changed(prev: &Settings, cur: &Settings) -> (r: bool)
    ensures
        r == (prev@.landslide.x != cur@.landslide.x || prev@.landslide.y != cur@.landslide.y),
{
    prev.landslide.x != cur.landslide.x || prev.landslide.y != cur.landslide.y
}

} // verus!
