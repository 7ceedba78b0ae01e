//! The display loop's decisions: texture slot bookkeeping for the
//! double-buffered renderer, and the Show/Standby state machine driven by
//! motion and time. The loop itself — rendering, sleeping, polling — runs
//! outside the library and performs whatever action a tick decides.

use vstd::prelude::*;

verus! {

/// Index of a texture to operate on.
#[derive(Clone, Copy, Debug, PartialEq, Eq, Structural)]
pub enum TextureIndex {
    /// Currently active texture containing the displayed image.
    Current,
    /// Texture containing the next image to display.
    Next,
}

/// Which of the two texture slots an index refers to, given the slot that
/// is currently on screen.
pub fn texture_slot(current_texture: usize, index: TextureIndex) -> (r: usize)
    requires
        current_texture < 2,
    ensures
        index == TextureIndex::Current ==> r == current_texture,
        index == TextureIndex::Next ==> r == (current_texture + 1) % 2,
        r < 2,
{
    match index {
        TextureIndex::Current => current_texture,
        TextureIndex::Next => (current_texture + 1) % 2,
    }
}

/// The slot that is current after swapping the front and back textures.
pub fn swapped_texture_slot(current_texture: usize) -> (r: usize)
    requires
        current_texture < 2,
    ensures
        r == (current_texture + 1) % 2,
        r < 2,
{
    (current_texture + 1) % 2
}

/// The two states of the display loop.
#[derive(Clone, Copy, Debug, PartialEq, Eq, Structural)]
pub enum DisplayMode {
    /// Photos are being shown.
    Show,
    /// The screen is powered off until motion returns.
    Standby,
}

/// What the display loop observes on one tick.
#[derive(Clone, Copy, Debug)]
pub struct TickInput {
    /// The motion sensor is configured.
    pub motionsensor_enabled: bool,
    /// Motion was seen on this tick (held true when no sensor is
    /// configured).
    pub motion: bool,
    /// Milliseconds since motion was last seen.
    pub millis_since_activation: u64,
    /// Milliseconds since the shown photo last changed.
    pub millis_since_change: u64,
    /// A fully composited next image is waiting in the handoff slot.
    pub next_image_ready: bool,
    /// Configured photo change interval, in milliseconds.
    pub photo_change_interval_millis: u64,
}

/// What the loop must do after a tick.
#[derive(Clone, Copy, Debug, PartialEq, Eq, Structural)]
pub enum TickAction {
    /// Command the display hardware off; the mode becomes Standby.
    EnterStandby,
    /// Command the display hardware on; the mode becomes Show.
    WakeUp,
    /// Hand the waiting image to the renderer, play the transition, swap
    /// the textures and record the change time.
    ShowNextPhoto,
    /// Nothing is due: sleep for the show-mode poll period.
    IdleShow,
    /// Still no motion: sleep for the standby poll period.
    IdleStandby,
}

/// Sustained absence of motion after which the screen powers off.
pub const NO_MOTION_STANDBY_MILLIS: u64 = 10_000;

/// Poll period of the loop while showing photos.
pub const LOOP_SLEEP_MILLIS: u64 = 100;

/// Poll period of the loop while in standby.
pub const LOOP_STANDBY_SLEEP_MILLIS: u64 = 10;

/// One decision of the display loop: from the current mode and what the
/// tick observed, the next mode and the action to perform. Transitions are
/// level-triggered on the motion signal and the time thresholds.
pub fn display_step(mode: DisplayMode, tick: TickInput) -> (r: (DisplayMode, TickAction))
    ensures
        mode == DisplayMode::Show ==> r == ({
            if tick.motionsensor_enabled && tick.millis_since_activation
                > NO_MOTION_STANDBY_MILLIS {
                (DisplayMode::Standby, TickAction::EnterStandby)
            } else if tick.millis_since_change < tick.photo_change_interval_millis {
                (DisplayMode::Show, TickAction::IdleShow)
            } else if tick.next_image_ready {
                (DisplayMode::Show, TickAction::ShowNextPhoto)
            } else {
                (DisplayMode::Show, TickAction::IdleShow)
            }
        }),
        mode == DisplayMode::Standby ==> r == ({
            if tick.motion {
                (DisplayMode::Show, TickAction::WakeUp)
            } else {
                (DisplayMode::Standby, TickAction::IdleStandby)
            }
        }),
{
    match mode {
        DisplayMode::Show => {
            if tick.motionsensor_enabled && tick.millis_since_activation
                > NO_MOTION_STANDBY_MILLIS {
                /* Long time no motion: command the display into standby. */
                (DisplayMode::Standby, TickAction::EnterStandby)
            } else if tick.millis_since_change < tick.photo_change_interval_millis {
                /* Not yet time to change the photo. */
                (DisplayMode::Show, TickAction::IdleShow)
            } else if tick.next_image_ready {
                (DisplayMode::Show, TickAction::ShowNextPhoto)
            } else {
                /* The next photo is still being fetched and processed. */
                (DisplayMode::Show, TickAction::IdleShow)
            }
        },
        DisplayMode::Standby => {
            if tick.motion {
                /* Motion during standby: wake the display up. */
                (DisplayMode::Show, TickAction::WakeUp)
            } else {
                (DisplayMode::Standby, TickAction::IdleStandby)
            }
        },
    }
}

} // verus!
