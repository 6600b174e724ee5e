//! Pinning a window above or below all others.
//!
//! A pin is one call of `SetWindowPos` that changes the z-order and nothing
//! else: the flags tell the window manager to leave position, size and
//! activation alone, and no flag asks it to show the window. A window that
//! is hidden when it is pinned is hidden afterwards.
//!
//! A pin by itself does not say where the window is meant to stay. The
//! commands of a `Placement` pin the window and take the mode with them.

use crate::native::{
    InsertAfter, NativeWindowHandle, SetWindowPosCall, SWP_NOACTIVATE, SWP_NOMOVE, SWP_NOSIZE,
    SWP_NOZORDER, SWP_SHOWWINDOW,
};
use vstd::prelude::*;

verus! {

/// The flags of every pin: no move, no resize, no activation.
pub const PIN_FLAGS: u32 = SWP_NOMOVE | SWP_NOSIZE | SWP_NOACTIVATE;

/// The flags of the raise that ends an attachment to the desktop's
/// background: those of a pin, and the window is shown, so that the shell
/// draws it in its new place.
pub const RAISE_FLAGS: u32 = SWP_NOMOVE | SWP_NOSIZE | SWP_NOACTIVATE | SWP_SHOWWINDOW;

/// The call that pins `hwnd`: to the top where `top` holds, to the bottom
/// otherwise.
pub open spec fn pin_call(hwnd: NativeWindowHandle, top: bool) -> SetWindowPosCall {
    SetWindowPosCall {
        hwnd,
        insert_after: if top {
            InsertAfter::Top
        } else {
            InsertAfter::Bottom
        },
        x: 0,
        y: 0,
        cx: 0,
        cy: 0,
        flags: PIN_FLAGS,
    }
}

/// The call that raises `hwnd` above every other window and shows it.
pub open spec fn raise_call(hwnd: NativeWindowHandle) -> SetWindowPosCall {
    SetWindowPosCall {
        hwnd,
        insert_after: InsertAfter::TopMost,
        x: 0,
        y: 0,
        cx: 0,
        cy: 0,
        flags: RAISE_FLAGS,
    }
}

/// The flags of a pin hold each of its three bits, and neither the one that
/// would show the window nor the one that would freeze the z-order.
pub proof fn lemma_pin_flags()
    ensures
        PIN_FLAGS == 0x0013,
        PIN_FLAGS & SWP_NOMOVE == SWP_NOMOVE,
        PIN_FLAGS & SWP_NOSIZE == SWP_NOSIZE,
        PIN_FLAGS & SWP_NOACTIVATE == SWP_NOACTIVATE,
        PIN_FLAGS & SWP_SHOWWINDOW == 0,
        PIN_FLAGS & SWP_NOZORDER == 0,
{
    assert(PIN_FLAGS == 0x0013 && PIN_FLAGS & SWP_NOMOVE == SWP_NOMOVE && PIN_FLAGS & SWP_NOSIZE
        == SWP_NOSIZE && PIN_FLAGS & SWP_NOACTIVATE == SWP_NOACTIVATE && PIN_FLAGS
        & SWP_SHOWWINDOW == 0 && PIN_FLAGS & SWP_NOZORDER == 0) by (bit_vector);
}

/// The flags of the raise are those of a pin and the bit that shows the
/// window.
pub proof fn lemma_raise_flags()
    ensures
        RAISE_FLAGS == 0x0053,
        RAISE_FLAGS == PIN_FLAGS | SWP_SHOWWINDOW,
        RAISE_FLAGS & SWP_NOMOVE == SWP_NOMOVE,
        RAISE_FLAGS & SWP_NOSIZE == SWP_NOSIZE,
        RAISE_FLAGS & SWP_NOACTIVATE == SWP_NOACTIVATE,
        RAISE_FLAGS & SWP_SHOWWINDOW == SWP_SHOWWINDOW,
        RAISE_FLAGS & SWP_NOZORDER == 0,
{
    assert(RAISE_FLAGS == 0x0053 && RAISE_FLAGS == PIN_FLAGS | SWP_SHOWWINDOW && RAISE_FLAGS
        & SWP_NOMOVE == SWP_NOMOVE && RAISE_FLAGS & SWP_NOSIZE == SWP_NOSIZE && RAISE_FLAGS
        & SWP_NOACTIVATE == SWP_NOACTIVATE && RAISE_FLAGS & SWP_SHOWWINDOW == SWP_SHOWWINDOW
        && RAISE_FLAGS & SWP_NOZORDER == 0) by (bit_vector);
}

/// A pin changes the z-order only: it keeps position, size and activation,
/// and does not show the window.
pub proof fn lemma_pin_is_an_ordering_change(hwnd: NativeWindowHandle, top: bool)
    ensures
        pin_call(hwnd, top).keeps_position(),
        pin_call(hwnd, top).keeps_size(),
        pin_call(hwnd, top).keeps_activation(),
        !pin_call(hwnd, top).shows(),
        !pin_call(hwnd, top).keeps_order(),
{
    lemma_pin_flags();
}

/// The raise keeps position, size and activation, changes the z-order and
/// shows the window.
pub proof fn lemma_raise_keeps_the_geometry(hwnd: NativeWindowHandle)
    ensures
        raise_call(hwnd).keeps_position(),
        raise_call(hwnd).keeps_size(),
        raise_call(hwnd).keeps_activation(),
        raise_call(hwnd).shows(),
        !raise_call(hwnd).keeps_order(),
{
    lemma_raise_flags();
}

/// The call that places `hwnd` above all other windows (`top`) or below all
/// of them.
pub fn set_window_pos(hwnd: NativeWindowHandle, top: bool) -> (call: SetWindowPosCall)
    ensures
        call == pin_call(hwnd, top),
        call.keeps_position() && call.keeps_size() && call.keeps_activation(),
        !call.shows(),
        !call.keeps_order(),
{
    proof {
        lemma_pin_is_an_ordering_change(hwnd, top);
    }
    SetWindowPosCall {
        hwnd,
        insert_after: if top {
            InsertAfter::Top
        } else {
            InsertAfter::Bottom
        },
        x: 0,
        y: 0,
        cx: 0,
        cy: 0,
        flags: PIN_FLAGS,
    }
}

/// The call that raises `hwnd` above every other window for a moment, so
/// that the shell draws it again.
pub fn raise_to_top_most(hwnd: NativeWindowHandle) -> (call: SetWindowPosCall)
    ensures
        call == raise_call(hwnd),
        call.keeps_position() && call.keeps_size() && call.keeps_activation(),
{
    proof {
        lemma_raise_keeps_the_geometry(hwnd);
    }
    SetWindowPosCall {
        hwnd,
        insert_after: InsertAfter::TopMost,
        x: 0,
        y: 0,
        cx: 0,
        cy: 0,
        flags: RAISE_FLAGS,
    }
}

} // verus!
