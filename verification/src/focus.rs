//! The focus guard: puts a pinned window back in its place.
//!
//! The window manager moves a window up in the z-order when it is activated.
//! A window that is pinned below the icons is therefore pinned again each
//! time it loses the focus.

use crate::native::{NativeWindowHandle, SetWindowPosCall};
use crate::zorder::{pin_call, set_window_pos};
use vstd::prelude::*;

verus! {

/// Where the window is meant to be. This is what the process wants; the
/// window manager holds what is.
#[derive(Clone, Copy, Debug, PartialEq, Eq, Structural)]
pub enum PlacementMode {
    /// An ordinary top-level window.
    Normal,
    /// Below every other window, the desktop icons included.
    PinnedBelow,
    /// Above every other window.
    PinnedAbove,
    /// A child of the desktop's background container.
    WallpaperLayer,
}

/// The calls that a change of focus asks for: one pin to the bottom when a
/// window in `PinnedBelow` mode loses the focus, none in every other case.
pub open spec fn guard_calls(
    mode: PlacementMode,
    window: NativeWindowHandle,
    focused: bool,
) -> Option<SetWindowPosCall> {
    if mode == PlacementMode::PinnedBelow && !focused {
        Some(pin_call(window, false))
    } else {
        None
    }
}

/// Answers a change of focus of `window`.
pub fn on_focus_changed(mode: PlacementMode, window: NativeWindowHandle, focused: bool) -> (call:
    Option<SetWindowPosCall>)
    ensures
        call == guard_calls(mode, window, focused),
        mode == PlacementMode::PinnedBelow && !focused ==> call == Some(pin_call(window, false)),
        mode != PlacementMode::PinnedBelow || focused ==> call.is_none(),
        call matches Some(c) ==> c.keeps_position() && c.keeps_size() && c.keeps_activation()
            && !c.shows(),
{
    match mode {
        PlacementMode::PinnedBelow => {
            if focused {
                None
            } else {
                Some(set_window_pos(window, false))
            }
        },
        _ => None,
    }
}

} // verus!
