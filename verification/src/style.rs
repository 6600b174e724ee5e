//! Style bits of a window that lives in the desktop's background.
//!
//! Both style words are changed by reading them, changing the bits that
//! matter and writing them back: every other bit stays as the window had it.

use crate::native::{WS_EX_LAYERED, WS_EX_NOACTIVATE, WS_EX_TOOLWINDOW, WS_EX_TRANSPARENT, WS_POPUP};
use vstd::prelude::*;

verus! {

/// The extended-style bits that a background window must not have: with
/// them it would let input through, hide from window listings or refuse
/// activation.
pub const EX_STYLE_CLEARED: u32 = WS_EX_TRANSPARENT | WS_EX_TOOLWINDOW | WS_EX_NOACTIVATE;

/// The extended style of a background window: layered, and none of the
/// cleared bits.
pub open spec fn background_ex_style(bits: u32) -> u32 {
    (bits | WS_EX_LAYERED) & !EX_STYLE_CLEARED
}

/// The style of a background window: a pop-up window.
pub open spec fn background_style(bits: u32) -> u32 {
    bits | WS_POPUP
}

/// The layered bit is set, the three unwanted bits are clear, and no other
/// bit differs from `bits`. Adjusting twice changes nothing more.
pub proof fn lemma_background_ex_style(bits: u32)
    ensures
        background_ex_style(bits) & WS_EX_LAYERED == WS_EX_LAYERED,
        background_ex_style(bits) & WS_EX_TRANSPARENT == 0,
        background_ex_style(bits) & WS_EX_TOOLWINDOW == 0,
        background_ex_style(bits) & WS_EX_NOACTIVATE == 0,
        background_ex_style(bits) & EX_STYLE_CLEARED == 0,
        background_ex_style(bits) & !(WS_EX_LAYERED | EX_STYLE_CLEARED) == bits & !(WS_EX_LAYERED
            | EX_STYLE_CLEARED),
        background_ex_style(background_ex_style(bits)) == background_ex_style(bits),
{
    assert(background_ex_style(bits) & WS_EX_LAYERED == WS_EX_LAYERED) by (bit_vector);
    assert(background_ex_style(bits) & WS_EX_TRANSPARENT == 0) by (bit_vector);
    assert(background_ex_style(bits) & WS_EX_TOOLWINDOW == 0) by (bit_vector);
    assert(background_ex_style(bits) & WS_EX_NOACTIVATE == 0) by (bit_vector);
    assert(background_ex_style(bits) & EX_STYLE_CLEARED == 0) by (bit_vector);
    assert(background_ex_style(bits) & !(WS_EX_LAYERED | EX_STYLE_CLEARED) == bits & !(
    WS_EX_LAYERED | EX_STYLE_CLEARED)) by (bit_vector);
    assert(background_ex_style(background_ex_style(bits)) == background_ex_style(bits))
        by (bit_vector);
}

/// The pop-up bit is set and no other bit differs from `bits`. Adjusting
/// twice changes nothing more.
pub proof fn lemma_background_style(bits: u32)
    ensures
        background_style(bits) & WS_POPUP == WS_POPUP,
        background_style(bits) & !WS_POPUP == bits & !WS_POPUP,
        background_style(background_style(bits)) == background_style(bits),
{
    assert(background_style(bits) & WS_POPUP == WS_POPUP) by (bit_vector);
    assert(background_style(bits) & !WS_POPUP == bits & !WS_POPUP) by (bit_vector);
    assert(background_style(background_style(bits)) == background_style(bits)) by (bit_vector);
}

/// Computes the extended style to write back for a background window.
pub fn adjust_ex_style(bits: u32) -> (r: u32)
    ensures
        r == background_ex_style(bits),
        r & WS_EX_LAYERED == WS_EX_LAYERED,
        r & WS_EX_TRANSPARENT == 0,
        r & WS_EX_TOOLWINDOW == 0,
        r & WS_EX_NOACTIVATE == 0,
        r & !(WS_EX_LAYERED | EX_STYLE_CLEARED) == bits & !(WS_EX_LAYERED | EX_STYLE_CLEARED),
{
    proof {
        lemma_background_ex_style(bits);
    }
    (bits | WS_EX_LAYERED) & !EX_STYLE_CLEARED
}

/// Computes the style to write back for a background window.
pub fn adjust_style(bits: u32) -> (r: u32)
    ensures
        r == background_style(bits),
        r & WS_POPUP == WS_POPUP,
        r & !WS_POPUP == bits & !WS_POPUP,
{
    proof {
        lemma_background_style(bits);
    }
    bits | WS_POPUP
}

} // verus!
