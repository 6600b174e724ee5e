//! The vocabulary shared with the native window manager: handles, the calls
//! that the host program makes on the library's behalf, and their replies.
//!
//! The library never touches a window. It says which call is to be made and
//! with which arguments; the host program makes it and reports what came
//! back.

use vstd::prelude::*;

verus! {

/// `SetWindowPos` flag: keep the current size, ignore `cx` and `cy`.
pub const SWP_NOSIZE: u32 = 0x0001;

/// `SetWindowPos` flag: keep the current position, ignore `x` and `y`.
pub const SWP_NOMOVE: u32 = 0x0002;

/// `SetWindowPos` flag: keep the current place in the z-order.
pub const SWP_NOZORDER: u32 = 0x0004;

/// `SetWindowPos` flag: do not activate the window.
pub const SWP_NOACTIVATE: u32 = 0x0010;

/// `SetWindowPos` flag: show the window.
pub const SWP_SHOWWINDOW: u32 = 0x0040;

/// Window style: the window is a pop-up window.
pub const WS_POPUP: u32 = 0x8000_0000;

/// Extended window style: mouse input passes through the window.
pub const WS_EX_TRANSPARENT: u32 = 0x0000_0020;

/// Extended window style: a tool window, left out of the task bar and of
/// window switching.
pub const WS_EX_TOOLWINDOW: u32 = 0x0000_0080;

/// Extended window style: a layered window, drawn with an alpha value.
pub const WS_EX_LAYERED: u32 = 0x0008_0000;

/// Extended window style: the window is not activated by a click.
pub const WS_EX_NOACTIVATE: u32 = 0x0800_0000;

/// The message that makes the desktop shell bring up the container for
/// background windows.
pub const SPAWN_HOST_MESSAGE: u32 = 0x052C;

/// How long the shell is given to answer that message, in milliseconds.
pub const SPAWN_HOST_TIMEOUT_MS: u32 = 1000;

/// Alpha value of a window that is fully opaque.
pub const OPAQUE: u8 = 255;

/// A reference to a native window, borrowed from the toolkit for the length
/// of one notification. Zero refers to no window.
#[derive(Clone, Copy, Debug, PartialEq, Eq, Structural)]
pub struct NativeWindowHandle {
    pub raw: usize,
}

impl NativeWindowHandle {
    pub open spec fn null(self) -> bool {
        self.raw == 0
    }

    pub fn new(raw: usize) -> (handle: NativeWindowHandle)
        ensures
            handle.raw == raw,
    {
        NativeWindowHandle { raw }
    }

    pub fn is_null(&self) -> (b: bool)
        ensures
            b == self.null(),
    {
        self.raw == 0
    }
}

/// The place in the z-order that `SetWindowPos` is asked for.
#[derive(Clone, Copy, Debug, PartialEq, Eq, Structural)]
pub enum InsertAfter {
    /// Above all windows that are not top-most.
    Top,
    /// Below all other windows.
    Bottom,
    /// Above all other windows, also while another one is active.
    TopMost,
}

/// The arguments of one call of `SetWindowPos`.
#[derive(Clone, Copy, Debug, PartialEq, Eq, Structural)]
pub struct SetWindowPosCall {
    pub hwnd: NativeWindowHandle,
    pub insert_after: InsertAfter,
    pub x: i32,
    pub y: i32,
    pub cx: i32,
    pub cy: i32,
    pub flags: u32,
}

impl SetWindowPosCall {
    /// The call leaves the window where it is.
    pub open spec fn keeps_position(self) -> bool {
        self.flags & SWP_NOMOVE != 0
    }

    /// The call leaves the window's size as it is.
    pub open spec fn keeps_size(self) -> bool {
        self.flags & SWP_NOSIZE != 0
    }

    /// The call does not activate the window.
    pub open spec fn keeps_activation(self) -> bool {
        self.flags & SWP_NOACTIVATE != 0
    }

    /// The call leaves the z-order as it is.
    pub open spec fn keeps_order(self) -> bool {
        self.flags & SWP_NOZORDER != 0
    }

    /// The call shows the window.
    pub open spec fn shows(self) -> bool {
        self.flags & SWP_SHOWWINDOW != 0
    }
}

/// A call for the host program to make.
#[derive(Clone, Copy, Debug, PartialEq, Eq, Structural)]
pub enum NativeCall {
    /// Look up the desktop shell's top-level window. Replied to with
    /// `Window`.
    FindShell,
    /// Send `message` to the shell and wait at most `timeout_ms` for it to
    /// be handled. Replied to with `Done`.
    SpawnHost { shell: NativeWindowHandle, message: u32, timeout_ms: u32 },
    /// Look up the container for background windows that the shell keeps
    /// beside its icons. Replied to with `Window`.
    FindHost { shell: NativeWindowHandle },
    /// Make `window` a child of `parent`. Replied to with `Done`.
    SetParent { window: NativeWindowHandle, parent: NativeWindowHandle },
    /// Read the extended style of `window`. Replied to with `Bits`.
    ReadExStyle { window: NativeWindowHandle },
    /// Set the extended style of `window`. Replied to with `Done`.
    WriteExStyle { window: NativeWindowHandle, bits: u32 },
    /// Set the alpha value of the layered window `window`. Replied to with
    /// `Done`.
    SetOpacity { window: NativeWindowHandle, alpha: u8 },
    /// Read the style of `window`. Replied to with `Bits`.
    ReadStyle { window: NativeWindowHandle },
    /// Set the style of `window`. Replied to with `Done`.
    WriteStyle { window: NativeWindowHandle, bits: u32 },
    /// Call `SetWindowPos`. Replied to with `Done`.
    SetWindowPos(SetWindowPosCall),
}

impl NativeCall {
    /// Whether the call changes anything about a window. A lookup, a read
    /// and the message to the shell change nothing about it.
    pub open spec fn changes_window(self) -> bool {
        match self {
            NativeCall::FindShell => false,
            NativeCall::SpawnHost { .. } => false,
            NativeCall::FindHost { .. } => false,
            NativeCall::ReadExStyle { .. } => false,
            NativeCall::ReadStyle { .. } => false,
            NativeCall::SetParent { .. } => true,
            NativeCall::WriteExStyle { .. } => true,
            NativeCall::SetOpacity { .. } => true,
            NativeCall::WriteStyle { .. } => true,
            NativeCall::SetWindowPos(_) => true,
        }
    }

    pub fn is_change(&self) -> (b: bool)
        ensures
            b == self.changes_window(),
    {
        match self {
            NativeCall::FindShell => false,
            NativeCall::SpawnHost { .. } => false,
            NativeCall::FindHost { .. } => false,
            NativeCall::ReadExStyle { .. } => false,
            NativeCall::ReadStyle { .. } => false,
            _ => true,
        }
    }
}

/// What came back from a call.
#[derive(Clone, Copy, Debug, PartialEq, Eq, Structural)]
pub enum NativeReply {
    /// The window that was looked up.
    Window(NativeWindowHandle),
    /// The style bits that were read.
    Bits(u32),
    /// The call succeeded and returns nothing.
    Done,
    /// The call failed or ran out of time.
    Failed,
}

} // verus!
