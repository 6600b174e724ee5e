//! What the native calls do, as far as this library relies on it.
//!
//! The window manager itself is out of reach. This module writes down, for
//! one window and for the z-order of the top-level windows, the effect that
//! its documentation gives to each call, so that the calls which the library
//! asks for can be held against it: a pin made twice leaves what one pin
//! leaves, and an attachment that never finds the container leaves the
//! window as it was.

use crate::geometry::WindowGeometry;
use crate::native::{InsertAfter, NativeCall, NativeReply, NativeWindowHandle, SetWindowPosCall};
use crate::native::{SWP_NOACTIVATE, SWP_NOMOVE, SWP_NOSIZE, SWP_NOZORDER, SWP_SHOWWINDOW};
use crate::wallpaper::{run, AttachStatus};
use crate::zorder::{lemma_pin_is_an_ordering_change, pin_call};
use vstd::prelude::*;
use vstd::seq_lib::{lemma_seq_concat_contains_all_elements, lemma_seq_contains_after_push};

verus! {

/// What is known of one window.
#[derive(Clone, Copy, Debug, PartialEq, Eq, Structural)]
pub struct Window {
    pub handle: NativeWindowHandle,
    pub geometry: WindowGeometry,
    /// The parent window; null for a top-level window.
    pub parent: NativeWindowHandle,
    pub style: u32,
    pub ex_style: u32,
    pub alpha: u8,
    pub visible: bool,
    pub active: bool,
}

/// The extent that `SetWindowPos` gives a window for a requested one: a
/// negative request counts as zero.
pub open spec fn extent(requested: i32) -> u32 {
    if requested < 0 {
        0
    } else {
        requested as u32
    }
}

impl NativeCall {
    /// The window that the call is made on; none for a lookup.
    pub open spec fn target(self) -> Option<NativeWindowHandle> {
        match self {
            NativeCall::FindShell => None,
            NativeCall::SpawnHost { .. } => None,
            NativeCall::FindHost { .. } => None,
            NativeCall::SetParent { window, .. } => Some(window),
            NativeCall::ReadExStyle { window } => Some(window),
            NativeCall::WriteExStyle { window, .. } => Some(window),
            NativeCall::SetOpacity { window, .. } => Some(window),
            NativeCall::ReadStyle { window } => Some(window),
            NativeCall::WriteStyle { window, .. } => Some(window),
            NativeCall::SetWindowPos(call) => Some(call.hwnd),
        }
    }
}

impl Window {
    /// The window after `SetWindowPos`: position and size change unless the
    /// flags keep them, the window is shown where the flags say so, and it
    /// is activated unless they forbid it.
    pub open spec fn after_set_window_pos(self, call: SetWindowPosCall) -> Window {
        Window {
            geometry: WindowGeometry {
                x: if call.keeps_position() {
                    self.geometry.x
                } else {
                    call.x
                },
                y: if call.keeps_position() {
                    self.geometry.y
                } else {
                    call.y
                },
                width: if call.keeps_size() {
                    self.geometry.width
                } else {
                    extent(call.cx)
                },
                height: if call.keeps_size() {
                    self.geometry.height
                } else {
                    extent(call.cy)
                },
            },
            visible: self.visible || call.shows(),
            active: self.active || !call.keeps_activation(),
            ..self
        }
    }

    /// The window after a call. A call on another window, a lookup and a
    /// read leave it as it is.
    pub open spec fn after(self, call: NativeCall) -> Window {
        if call.target() != Some(self.handle) {
            self
        } else {
            match call {
                NativeCall::SetParent { parent, .. } => Window { parent, ..self },
                NativeCall::WriteExStyle { bits, .. } => Window { ex_style: bits, ..self },
                NativeCall::SetOpacity { alpha, .. } => Window { alpha, ..self },
                NativeCall::WriteStyle { bits, .. } => Window { style: bits, ..self },
                NativeCall::SetWindowPos(c) => self.after_set_window_pos(c),
                _ => self,
            }
        }
    }

    /// The window after a series of calls.
    pub open spec fn after_all(self, calls: Seq<NativeCall>) -> Window
        decreases calls.len(),
    {
        if calls.len() == 0 {
            self
        } else {
            self.after_all(calls.drop_last()).after(calls.last())
        }
    }

    /// Carries out a call on the window.
    pub fn apply(&mut self, call: &NativeCall)
        ensures
            *final(self) == old(self).after(*call),
    {
        match call {
            NativeCall::SetParent { window, parent } => {
                if window.raw == self.handle.raw {
                    self.parent = *parent;
                }
            },
            NativeCall::WriteExStyle { window, bits } => {
                if window.raw == self.handle.raw {
                    self.ex_style = *bits;
                }
            },
            NativeCall::SetOpacity { window, alpha } => {
                if window.raw == self.handle.raw {
                    self.alpha = *alpha;
                }
            },
            NativeCall::WriteStyle { window, bits } => {
                if window.raw == self.handle.raw {
                    self.style = *bits;
                }
            },
            NativeCall::SetWindowPos(c) => {
                if c.hwnd.raw == self.handle.raw {
                    if c.flags & SWP_NOMOVE == 0 {
                        self.geometry.x = c.x;
                        self.geometry.y = c.y;
                    }
                    if c.flags & SWP_NOSIZE == 0 {
                        self.geometry.width = if c.cx < 0 {
                            0
                        } else {
                            c.cx as u32
                        };
                        self.geometry.height = if c.cy < 0 {
                            0
                        } else {
                            c.cy as u32
                        };
                    }
                    if c.flags & SWP_SHOWWINDOW != 0 {
                        self.visible = true;
                    }
                    if c.flags & SWP_NOACTIVATE == 0 {
                        self.active = true;
                    }
                }
            },
            _ => {},
        }
    }
}

/// A z-order without the window `h`.
pub open spec fn without(order: Seq<NativeWindowHandle>, h: NativeWindowHandle) -> Seq<
    NativeWindowHandle,
>
    decreases order.len(),
{
    if order.len() == 0 {
        order
    } else if order.last() == h {
        without(order.drop_last(), h)
    } else {
        without(order.drop_last(), h).push(order.last())
    }
}

/// The z-order of the top-level windows, front first, after `SetWindowPos`.
/// The order stays as it is where the flags keep it or where the window is
/// not among them, as for a window that was destroyed. Else the window
/// leaves its place and goes to the back for `Bottom`, to the front for
/// `Top` and `TopMost`.
pub open spec fn restacked(order: Seq<NativeWindowHandle>, call: SetWindowPosCall) -> Seq<
    NativeWindowHandle,
> {
    if call.keeps_order() || !order.contains(call.hwnd) {
        order
    } else {
        match call.insert_after {
            InsertAfter::Bottom => without(order, call.hwnd).push(call.hwnd),
            _ => seq![call.hwnd] + without(order, call.hwnd),
        }
    }
}

proof fn lemma_without(order: Seq<NativeWindowHandle>, h: NativeWindowHandle)
    ensures
        !without(order, h).contains(h),
        !order.contains(h) ==> without(order, h) == order,
        forall|other: NativeWindowHandle|
            other != h ==> (without(order, h).contains(other) <==> order.contains(other)),
    decreases order.len(),
{
    broadcast use lemma_seq_contains_after_push;

    if order.len() > 0 {
        let front = order.drop_last();
        lemma_without(front, h);
        assert(front.push(order.last()) =~= order);
    }
}

proof fn lemma_without_front(order: Seq<NativeWindowHandle>, h: NativeWindowHandle)
    ensures
        without(seq![h] + order, h) == without(order, h),
    decreases order.len(),
{
    let whole = seq![h] + order;
    if order.len() == 0 {
        assert(without(whole.drop_last(), h) =~= order);
    } else {
        lemma_without_front(order.drop_last(), h);
        assert(whole.drop_last() =~= seq![h] + order.drop_last());
    }
}

/// A pin made twice leaves the z-order that one pin leaves.
pub proof fn lemma_pin_is_idempotent(
    order: Seq<NativeWindowHandle>,
    hwnd: NativeWindowHandle,
    top: bool,
)
    ensures
        restacked(restacked(order, pin_call(hwnd, top)), pin_call(hwnd, top)) == restacked(
            order,
            pin_call(hwnd, top),
        ),
{
    lemma_restack_is_idempotent(order, pin_call(hwnd, top));
}

/// Any `SetWindowPos` made twice leaves the z-order that one call leaves.
pub proof fn lemma_restack_is_idempotent(order: Seq<NativeWindowHandle>, call: SetWindowPosCall)
    ensures
        restacked(restacked(order, call), call) == restacked(order, call),
{
    let h = call.hwnd;
    if !call.keeps_order() && order.contains(h) {
        let rest = without(order, h);
        lemma_without(order, h);
        lemma_without(rest, h);
        match call.insert_after {
            InsertAfter::Bottom => {
                assert(rest.push(h).drop_last() =~= rest);
            },
            _ => {
                lemma_without_front(rest, h);
            },
        }
    }
}

/// A pin puts the window at the back, or at the front, and keeps every
/// other window in the order: nothing is lost and nothing is added.
pub proof fn lemma_pin_places_the_window(
    order: Seq<NativeWindowHandle>,
    hwnd: NativeWindowHandle,
    top: bool,
)
    requires
        order.contains(hwnd),
    ensures
        top ==> restacked(order, pin_call(hwnd, top)).first() == hwnd,
        !top ==> restacked(order, pin_call(hwnd, top)).last() == hwnd,
        forall|other: NativeWindowHandle|
            restacked(order, pin_call(hwnd, top)).contains(other) <==> order.contains(other),
{
    broadcast use lemma_seq_contains_after_push, lemma_seq_concat_contains_all_elements;

    lemma_pin_is_an_ordering_change(hwnd, top);
    lemma_without(order, hwnd);
}

/// A pin leaves the window itself as it was: where it is, as large as it
/// is, shown or hidden as before, and no more active. Only its place in the
/// z-order changes.
pub proof fn lemma_pin_keeps_the_window(w: Window, hwnd: NativeWindowHandle, top: bool)
    ensures
        w.after(NativeCall::SetWindowPos(pin_call(hwnd, top))) == w,
        w.after(NativeCall::SetWindowPos(pin_call(hwnd, top))).geometry == w.geometry,
        w.after(NativeCall::SetWindowPos(pin_call(hwnd, top))).visible == w.visible,
        w.after(NativeCall::SetWindowPos(pin_call(hwnd, top))).active == w.active,
{
    lemma_pin_is_an_ordering_change(hwnd, top);
}

/// A window that is hidden when it is pinned is hidden afterwards, however
/// often it is pinned.
pub proof fn lemma_pin_keeps_a_hidden_window_hidden(w: Window, hwnd: NativeWindowHandle, top: bool)
    requires
        !w.visible,
    ensures
        !w.after(NativeCall::SetWindowPos(pin_call(hwnd, top))).visible,
        !w.after(NativeCall::SetWindowPos(pin_call(hwnd, top))).after(
            NativeCall::SetWindowPos(pin_call(hwnd, top)),
        ).visible,
{
    lemma_pin_keeps_the_window(w, hwnd, top);
}

/// Calls that change no window leave the window as it was.
pub proof fn lemma_lookups_keep_the_window(w: Window, calls: Seq<NativeCall>)
    requires
        forall|i: int| 0 <= i < calls.len() ==> !(#[trigger] calls[i]).changes_window(),
    ensures
        w.after_all(calls) == w,
    decreases calls.len(),
{
    if calls.len() > 0 {
        lemma_lookups_keep_the_window(w, calls.drop_last());
    }
}

/// An attachment that ends without the container, whichever of the lookups
/// failed or ran out of time, leaves the window as it was before the first
/// call: parent, style bits and all.
pub proof fn lemma_failed_lookup_keeps_the_window(w: Window, replies: Seq<NativeReply>)
    requires
        run(w.handle, replies).0.status == AttachStatus::Failed,
        run(w.handle, replies).0.step.is_lookup(),
    ensures
        w.after_all(run(w.handle, replies).1) == w,
{
    crate::wallpaper::lemma_failed_lookup_leaves_window_untouched(w.handle, replies);
    lemma_lookups_keep_the_window(w, run(w.handle, replies).1);
}

/// Carries out `SetWindowPos` on a z-order, front first.
pub fn restack(order: &mut Vec<NativeWindowHandle>, call: &SetWindowPosCall)
    ensures
        final(order)@ == restacked(old(order)@, *call),
{
    if call.flags & SWP_NOZORDER != 0 {
        return ;
    }
    let mut rest: Vec<NativeWindowHandle> = Vec::new();
    let mut found: bool = false;
    let mut i: usize = 0;
    while i < order.len()
        invariant
            i <= order@.len(),
            order@ == old(order)@,
            rest@ == without(order@.take(i as int), call.hwnd),
            found == order@.take(i as int).contains(call.hwnd),
        decreases order@.len() - i,
    {
        let ghost before = order@.take(i as int);
        proof {
            assert(order@.take(i + 1) =~= before.push(order@[i as int]));
            assert(before.push(order@[i as int]).drop_last() =~= before);
            lemma_seq_contains_after_push(before, order@[i as int], call.hwnd);
        }
        if order[i].raw == call.hwnd.raw {
            found = true;
        } else {
            rest.push(order[i]);
        }
        i = i + 1;
    }
    assert(order@.take(i as int) =~= order@);
    if !found {
        return ;
    }
    match call.insert_after {
        InsertAfter::Bottom => {
            rest.push(call.hwnd);
            *order = rest;
        },
        _ => {
            let mut front: Vec<NativeWindowHandle> = Vec::new();
            front.push(call.hwnd);
            let mut j: usize = 0;
            while j < rest.len()
                invariant
                    j <= rest@.len(),
                    front@ == seq![call.hwnd] + rest@.take(j as int),
                decreases rest@.len() - j,
            {
                front.push(rest[j]);
                j = j + 1;
            }
            *order = front;
        },
    }
}

} // verus!
