//! Decisions of the adaptive render loop: the frame rate drops to one frame
//! per second while idle and rises to thirty while a loading spinner is
//! animating; polling for input never blocks longer than the time left
//! until the next scheduled frame, and a pending redraw is served at once.

use vstd::prelude::*;
use super::state::AppState;

verus! {

/// Frames per second while idle.
pub const IDLE_FPS: u64 = 1;

/// Milliseconds between frames while idle.
pub const IDLE_FRAME_TIME_MS: u64 = 1000 / IDLE_FPS;

/// Frames per second while a spinner is animating.
pub const ANIMATION_FPS: u64 = 30;

/// Milliseconds between frames while a spinner is animating.
pub const ANIMATION_FRAME_TIME_MS: u64 = 1000 / ANIMATION_FPS;

/// Whether the UI is animating: true exactly in the loading states.
pub fn is_animating(state: &AppState) -> (r: bool)
    ensures
        r == (state is LoadingRefresh || state is LoadingCache),
{
    matches!(state, AppState::LoadingRefresh | AppState::LoadingCache)
}

/// The target time between frames for the animation mode.
pub fn target_frame_time_ms(animating: bool) -> (r: u64)
    ensures
        r == if animating {
            ANIMATION_FRAME_TIME_MS as int
        } else {
            IDLE_FRAME_TIME_MS as int
        },
{
    if animating {
        ANIMATION_FRAME_TIME_MS
    } else {
        IDLE_FRAME_TIME_MS
    }
}

/// How long the input poll may wait: not at all when a redraw is pending,
/// otherwise the time left until the next scheduled frame, at least one
/// millisecond so the loop never spins.
pub open spec fn spec_poll_timeout(needs_redraw: bool, elapsed_ms: int, target_ms: int) -> int {
    if needs_redraw {
        0
    } else if target_ms - elapsed_ms > 1 {
        target_ms - elapsed_ms
    } else {
        1
    }
}

/// The bounded timeout for one input poll.
pub fn poll_timeout_ms(needs_redraw: bool, elapsed_ms: u64, target_ms: u64) -> (r: u64)
    ensures
        r == spec_poll_timeout(needs_redraw, elapsed_ms as int, target_ms as int),
{
    if needs_redraw {
        0
    } else {
        let remaining = if target_ms > elapsed_ms {
            target_ms - elapsed_ms
        } else {
            0
        };
        if remaining > 1 {
            remaining
        } else {
            1
        }
    }
}

/// Whether this tick renders a frame: a redraw is pending, or a full frame
/// interval has elapsed since the last one.
pub fn should_redraw(needs_redraw: bool, elapsed_ms: u64, target_ms: u64) -> (r: bool)
    ensures
        r == (needs_redraw || elapsed_ms >= target_ms),
{
    needs_redraw || elapsed_ms >= target_ms
}

} // verus!
